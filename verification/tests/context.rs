use solaris::context::{
    check_layer_support, contains_terminator, copy_names, is_offered, ApplicationInfo, Context,
    Handle, InstanceRequest, Target,
};
use solaris::error::ContextError;

fn xlib_surface() -> Vec<String> {
    vec!["VK_KHR_surface".to_string(), "VK_KHR_xlib_surface".to_string()]
}

fn debug_linux() -> Target {
    Target::new(true, false)
}

fn release_linux() -> Target {
    Target::new(false, false)
}

#[test]
fn target_keeps_its_two_facts() {
    let t = Target::new(true, false);
    assert!(t.debug);
    assert!(!t.apple);
    assert_eq!(Target::new(false, true), Target { debug: false, apple: true });
}

#[test]
fn debug_build_appends_debug_utils() {
    let got = Context::get_required_extensions(&xlib_surface(), debug_linux());
    assert_eq!(
        got,
        vec![
            "VK_KHR_surface".to_string(),
            "VK_KHR_xlib_surface".to_string(),
            "VK_EXT_debug_utils".to_string(),
        ]
    );
}

#[test]
fn release_build_keeps_surface_extensions_only() {
    let got = Context::get_required_extensions(&xlib_surface(), release_linux());
    assert_eq!(got, xlib_surface());
    assert!(!got.contains(&"VK_EXT_debug_utils".to_string()));
}

#[test]
fn apple_host_appends_portability_last() {
    let surface = vec!["VK_KHR_surface".to_string(), "VK_EXT_metal_surface".to_string()];
    let got = Context::get_required_extensions(&surface, Target::new(true, true));
    assert_eq!(
        got,
        vec![
            "VK_KHR_surface".to_string(),
            "VK_EXT_metal_surface".to_string(),
            "VK_EXT_debug_utils".to_string(),
            "VK_KHR_portability_enumeration".to_string(),
        ]
    );
    let release = Context::get_required_extensions(&surface, Target::new(false, true));
    assert_eq!(
        release,
        vec![
            "VK_KHR_surface".to_string(),
            "VK_EXT_metal_surface".to_string(),
            "VK_KHR_portability_enumeration".to_string(),
        ]
    );
}

#[test]
fn added_extensions_occur_exactly_once() {
    let got = Context::get_required_extensions(&xlib_surface(), Target::new(true, true));
    let debug = got.iter().filter(|n| n.as_str() == "VK_EXT_debug_utils").count();
    let portability = got.iter().filter(|n| n.as_str() == "VK_KHR_portability_enumeration").count();
    assert_eq!(debug, 1);
    assert_eq!(portability, 1);
}

#[test]
fn empty_surface_list_gets_only_the_added_names() {
    let none: Vec<String> = Vec::new();
    assert_eq!(Context::get_required_extensions(&none, release_linux()), Vec::<String>::new());
    assert_eq!(
        Context::get_required_extensions(&none, debug_linux()),
        vec!["VK_EXT_debug_utils".to_string()]
    );
}

#[test]
fn extension_names_match_the_driver_binding() {
    let none: Vec<String> = Vec::new();
    let got = Context::get_required_extensions(&none, Target::new(true, true));
    assert_eq!(got[0].as_bytes(), ash::ext::debug_utils::NAME.to_bytes());
    assert_eq!(got[1].as_bytes(), ash::khr::portability_enumeration::NAME.to_bytes());
}

#[test]
fn debug_build_requests_the_validation_layer() {
    assert_eq!(
        Context::validation_layers(debug_linux()),
        vec!["VK_LAYER_KHRONOS_validation".to_string()]
    );
    assert_eq!(Context::validation_layers(Target::new(true, true)).len(), 1);
}

#[test]
fn release_build_requests_no_layer() {
    assert!(Context::validation_layers(release_linux()).is_empty());
    assert!(Context::validation_layers(Target::new(false, true)).is_empty());
}

#[test]
fn portability_flag_only_on_apple() {
    assert_eq!(Context::instance_flags(Target::new(false, false)), 0);
    assert_eq!(Context::instance_flags(Target::new(true, false)), 0);
    assert_eq!(Context::instance_flags(Target::new(false, true)), 1);
    assert_eq!(Context::instance_flags(Target::new(true, true)), 1);
    assert_eq!(
        Context::instance_flags(Target::new(true, true)),
        ash::vk::InstanceCreateFlags::ENUMERATE_PORTABILITY_KHR.as_raw()
    );
}

#[test]
fn application_info_has_fixed_engine_and_versions() {
    let info = Context::application_info("sandbox");
    assert_eq!(
        info,
        ApplicationInfo {
            application_name: "sandbox".to_string(),
            engine_name: "solaris".to_string(),
            application_version: 4194304,
            engine_version: 4194304,
            api_version: 4198400,
        }
    );
}

#[test]
fn api_version_is_one_point_one() {
    let info = Context::application_info("sandbox");
    assert_eq!(info.api_version, ash::vk::API_VERSION_1_1);
    assert_eq!(ash::vk::api_version_major(info.api_version), 1);
    assert_eq!(ash::vk::api_version_minor(info.api_version), 1);
    assert_eq!(ash::vk::api_version_variant(info.api_version), 0);
    assert_eq!(info.application_version, ash::vk::API_VERSION_1_0);
    assert_eq!(info.engine_version, (1u32 << 22));
}

#[test]
fn terminator_is_found_anywhere() {
    assert!(contains_terminator("\0"));
    assert!(contains_terminator("\0sandbox"));
    assert!(contains_terminator("sand\0box"));
    assert!(contains_terminator("sandbox\0"));
    assert!(contains_terminator("s\u{e9}\0"));
    assert!(!contains_terminator("sandbox"));
    assert!(!contains_terminator(""));
    assert!(!contains_terminator("s\u{e9}ance 0"));
}

#[test]
fn copy_names_copies_each_name() {
    assert_eq!(copy_names(&xlib_surface()), xlib_surface());
    assert_eq!(copy_names(&Vec::new()), Vec::<String>::new());
}

#[test]
fn prepare_gives_the_whole_request() {
    let got = Context::prepare("sandbox", true, &xlib_surface(), debug_linux());
    assert_eq!(
        got,
        Ok(InstanceRequest {
            info: Context::application_info("sandbox"),
            extensions: vec![
                "VK_KHR_surface".to_string(),
                "VK_KHR_xlib_surface".to_string(),
                "VK_EXT_debug_utils".to_string(),
            ],
            layers: vec!["VK_LAYER_KHRONOS_validation".to_string()],
            flags: 0,
        })
    );
}

#[test]
fn sandbox_on_debug_build_adds_one_extension_and_one_layer() {
    let surface = xlib_surface();
    let request = Context::prepare("sandbox", true, &surface, debug_linux()).unwrap();
    assert_eq!(request.extensions.len(), surface.len() + 1);
    assert_eq!(request.layers.len(), 1);
    assert_eq!(request.info.application_name, "sandbox");
}

#[test]
fn sandbox_on_release_build_adds_nothing() {
    let surface = xlib_surface();
    let request = Context::prepare("sandbox", true, &surface, release_linux()).unwrap();
    assert_eq!(request.extensions.len(), surface.len());
    assert_eq!(request.extensions, surface);
    assert_eq!(request.layers.len(), 0);
    assert_eq!(request.flags, 0);
}

#[test]
fn prepare_fails_when_the_driver_library_is_missing() {
    let got = Context::prepare("sandbox", false, &xlib_surface(), debug_linux());
    assert_eq!(got, Err(ContextError::EntryLoad));
}

#[test]
fn prepare_rejects_a_name_with_a_terminator() {
    let got = Context::prepare("sand\0box", true, &xlib_surface(), debug_linux());
    assert_eq!(got, Err(ContextError::InvalidName));
    let got = Context::prepare("sandbox\0", true, &xlib_surface(), release_linux());
    assert_eq!(got, Err(ContextError::InvalidName));
}

#[test]
fn missing_library_is_reported_before_the_name() {
    let got = Context::prepare("sand\0box", false, &xlib_surface(), debug_linux());
    assert_eq!(got, Err(ContextError::EntryLoad));
}

#[test]
fn prepare_accepts_an_empty_name() {
    let got = Context::prepare("", true, &xlib_surface(), release_linux()).unwrap();
    assert_eq!(got.info.application_name, "");
}

#[test]
fn success_status_gives_a_live_context() {
    let request = Context::prepare("sandbox", true, &xlib_surface(), debug_linux()).unwrap();
    let context = Context::new(request.clone(), 0).unwrap();
    assert!(context.live());
    assert_eq!(context.created_from(), &request);
}

#[test]
fn any_other_status_gives_the_error_with_its_code() {
    let request = Context::prepare("sandbox", true, &xlib_surface(), debug_linux()).unwrap();
    for status in [-9, -7, -6, -1, 1, 5, i32::MIN, i32::MAX] {
        match Context::new(request.clone(), status) {
            Err(e) => assert_eq!(e, ContextError::InstanceCreation(status)),
            Ok(_) => panic!("status {} gave a context", status),
        }
    }
}

#[test]
fn teardown_releases_instance_before_entry() {
    let request = Context::prepare("sandbox", true, &xlib_surface(), release_linux()).unwrap();
    let mut context = Context::new(request, 0).unwrap();
    assert_eq!(context.teardown(), vec![Handle::Instance, Handle::Entry]);
    assert!(!context.live());
}

#[test]
fn second_teardown_releases_nothing() {
    let request = Context::prepare("sandbox", true, &xlib_surface(), release_linux()).unwrap();
    let mut context = Context::new(request.clone(), 0).unwrap();
    context.teardown();
    assert_eq!(context.teardown(), Vec::<Handle>::new());
    assert!(!context.live());
    assert_eq!(context.created_from(), &request);
}

#[test]
fn offered_layer_is_found() {
    let available = vec!["VK_LAYER_A".to_string(), "VK_LAYER_KHRONOS_validation".to_string()];
    assert!(is_offered(&available, &"VK_LAYER_KHRONOS_validation".to_string()));
    assert!(is_offered(&available, &"VK_LAYER_A".to_string()));
    assert!(!is_offered(&available, &"VK_LAYER_B".to_string()));
    assert!(!is_offered(&Vec::new(), &"VK_LAYER_A".to_string()));
}

#[test]
fn layer_support_names_the_first_missing_layer() {
    let available = vec!["VK_LAYER_A".to_string()];
    let requested =
        vec!["VK_LAYER_A".to_string(), "VK_LAYER_B".to_string(), "VK_LAYER_C".to_string()];
    assert_eq!(
        check_layer_support(&requested, &available),
        Err(ContextError::ValidationLayerSupport("VK_LAYER_B".to_string()))
    );
    let layers = Context::validation_layers(debug_linux());
    assert_eq!(
        check_layer_support(&layers, &available),
        Err(ContextError::ValidationLayerSupport("VK_LAYER_KHRONOS_validation".to_string()))
    );
}

#[test]
fn layer_support_holds_when_all_are_offered() {
    let available = vec!["VK_LAYER_A".to_string(), "VK_LAYER_KHRONOS_validation".to_string()];
    assert_eq!(check_layer_support(&Context::validation_layers(debug_linux()), &available), Ok(()));
    assert_eq!(check_layer_support(&Vec::new(), &Vec::new()), Ok(()));
    assert_eq!(check_layer_support(&Context::validation_layers(release_linux()), &Vec::new()), Ok(()));
}
