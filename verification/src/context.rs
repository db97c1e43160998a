//! The graphics context: what is asked of the driver when an instance is
//! created, which construction steps fail and how, and in which order the
//! handles are released.

use crate::device_api::{
    debug_utils_extension, debug_utils_name, enumerate_portability_flag, make_api_version,
    packed_version, portability_extension, portability_flag, portability_name,
};
use crate::error::ContextError;
use vstd::prelude::*;
use vstd::string::StrSliceExecFns;
use vstd::string::StringExecFns;

verus! {

/// What the host and the build are: the two facts that decide which
/// extensions, layers and flags an instance is requested with.
#[derive(Debug, Clone, Copy, PartialEq, Eq, Structural)]
pub struct Target {
    /// Built with debug assertions enabled.
    pub debug: bool,
    /// Running on the Apple platform family.
    pub apple: bool,
}

/// The application-info record of an instance request.
#[derive(Debug, Clone, PartialEq, Eq)]
pub struct ApplicationInfo {
    pub application_name: String,
    pub engine_name: String,
    pub application_version: u32,
    pub engine_version: u32,
    pub api_version: u32,
}

/// All that instance creation hands to the driver.
#[derive(Debug, Clone, PartialEq, Eq)]
pub struct InstanceRequest {
    pub info: ApplicationInfo,
    pub extensions: Vec<String>,
    pub layers: Vec<String>,
    pub flags: u32,
}

/// A handle that a live context owns.
#[derive(Debug, Clone, Copy, PartialEq, Eq, Structural)]
pub enum Handle {
    /// The driver instance.
    Instance,
    /// The loaded driver library.
    Entry,
}

/// A graphics context: the record of a driver instance that was created
/// from `request`, and of whether its handles are still held.
#[derive(Debug)]
pub struct Context {
    request: InstanceRequest,
    live: bool,
}

/// The mathematical value of an [`ApplicationInfo`].
pub struct ApplicationInfoView {
    pub application_name: Seq<char>,
    pub engine_name: Seq<char>,
    pub application_version: u32,
    pub engine_version: u32,
    pub api_version: u32,
}

/// The mathematical value of an [`InstanceRequest`].
pub struct InstanceRequestView {
    pub info: ApplicationInfoView,
    pub extensions: Seq<Seq<char>>,
    pub layers: Seq<Seq<char>>,
    pub flags: u32,
}

/// The names that a list of strings spells, in order.
pub open spec fn names(list: Seq<String>) -> Seq<Seq<char>> {
    list.map_values(|s: String| s@)
}

/// How often `name` occurs in `list`.
pub open spec fn occurrences(list: Seq<Seq<char>>, name: Seq<char>) -> nat
    decreases list.len(),
{
    if list.len() == 0 {
        0
    } else {
        occurrences(list.drop_last(), name) + if list.last() == name {
            1nat
        } else {
            0nat
        }
    }
}

/// The engine's name, a fixed constant.
pub open spec fn engine_name() -> Seq<char> {
    "solaris"@
}

/// The name of the standard validation layer.
pub open spec fn validation_layer_name() -> Seq<char> {
    "VK_LAYER_KHRONOS_validation"@
}

/// A name is unusable when it holds the terminator character anywhere.
pub open spec fn has_terminator(name: Seq<char>) -> bool {
    exists|i: int| 0 <= i < name.len() && name[i] == '\0'
}

/// The extensions to request: the surface extensions of the window's
/// display system, then debug utilities on a debug build, then portability
/// enumeration on an Apple host.
pub open spec fn extension_names(surface: Seq<Seq<char>>, target: Target) -> Seq<Seq<char>> {
    surface + (if target.debug {
        seq![debug_utils_name()]
    } else {
        Seq::<Seq<char>>::empty()
    }) + (if target.apple {
        seq![portability_name()]
    } else {
        Seq::<Seq<char>>::empty()
    })
}

/// The layers to request: the standard validation layer on a debug build,
/// none otherwise.
pub open spec fn layer_names(target: Target) -> Seq<Seq<char>> {
    if target.debug {
        seq![validation_layer_name()]
    } else {
        Seq::<Seq<char>>::empty()
    }
}

/// The creation flags: portability enumeration on an Apple host, none
/// otherwise.
pub open spec fn creation_flags(target: Target) -> u32 {
    if target.apple {
        portability_flag()
    } else {
        0u32
    }
}

/// The application-info record for an application called `name`: engine
/// and application at version 1.0.0, the driver API at 1.1.0 or later.
pub open spec fn info_for(name: Seq<char>) -> ApplicationInfoView {
    ApplicationInfoView {
        application_name: name,
        engine_name: engine_name(),
        application_version: packed_version(0, 1, 0, 0),
        engine_version: packed_version(0, 1, 0, 0),
        api_version: packed_version(0, 1, 1, 0),
    }
}

/// The whole request for an application called `name` whose window needs
/// the extensions `surface`.
pub open spec fn request_for(
    name: Seq<char>,
    surface: Seq<Seq<char>>,
    target: Target,
) -> InstanceRequestView {
    InstanceRequestView {
        info: info_for(name),
        extensions: extension_names(surface, target),
        layers: layer_names(target),
        flags: creation_flags(target),
    }
}

/// What the steps before instance creation come to: the request, or the
/// error of the first step that fails. Loading the driver library comes
/// first, the check of the name second.
pub open spec fn preparation(
    name: Seq<char>,
    entry_loaded: bool,
    surface: Seq<Seq<char>>,
    target: Target,
) -> Result<InstanceRequestView, ContextError> {
    if !entry_loaded {
        Err(ContextError::EntryLoad)
    } else if has_terminator(name) {
        Err(ContextError::InvalidName)
    } else {
        Ok(request_for(name, surface, target))
    }
}

/// What the driver's answer to `request` comes to: a context created from
/// it where the status is zero, the status as an error otherwise.
pub open spec fn creation(
    request: InstanceRequestView,
    status: i32,
) -> Result<InstanceRequestView, ContextError> {
    if status == 0 {
        Ok(request)
    } else {
        Err(ContextError::InstanceCreation(status))
    }
}

/// The handles that teardown releases, in order: the instance before the
/// library it came from, and nothing where nothing is held any more.
pub open spec fn release_order(live: bool) -> Seq<Handle> {
    if live {
        seq![Handle::Instance, Handle::Entry]
    } else {
        Seq::<Handle>::empty()
    }
}

impl View for ApplicationInfo {
    type V = ApplicationInfoView;

    open spec fn view(&self) -> ApplicationInfoView {
        ApplicationInfoView {
            application_name: self.application_name@,
            engine_name: self.engine_name@,
            application_version: self.application_version,
            engine_version: self.engine_version,
            api_version: self.api_version,
        }
    }
}

impl View for InstanceRequest {
    type V = InstanceRequestView;

    open spec fn view(&self) -> InstanceRequestView {
        InstanceRequestView {
            info: self.info@,
            extensions: names(self.extensions@),
            layers: names(self.layers@),
            flags: self.flags,
        }
    }
}

impl Target {
    /// A target from its two facts.
    pub fn new(debug: bool, apple: bool) -> (target: Target)
        ensures
            target == (Target { debug, apple }),
    {
        Target { debug, apple }
    }
}

/// Whether `name` holds the terminator character.
pub fn contains_terminator(name: &str) -> (found: bool)
    ensures
        found == has_terminator(name@),
{
    let n: usize = name.unicode_len();
    let mut i: usize = 0;
    while i < n
        invariant
            n == name@.len(),
            i <= n,
            forall|j: int| 0 <= j < i ==> name@[j] != '\0',
        decreases n - i,
    {
        if name.get_char(i) == '\0' {
            return true;
        }
        i += 1;
    }
    false
}

/// A copy of `list`, name by name.
pub fn copy_names(list: &Vec<String>) -> (copy: Vec<String>)
    ensures
        names(copy@) == names(list@),
{
    let mut copy: Vec<String> = Vec::new();
    let mut i: usize = 0;
    while i < list.len()
        invariant
            i <= list.len(),
            copy@.len() == i,
            forall|j: int| 0 <= j < i ==> copy@[j]@ == list@[j]@,
        decreases list.len() - i,
    {
        copy.push(list[i].clone());
        i += 1;
    }
    assert(names(copy@) =~= names(list@));
    copy
}

impl Context {
    /// The extensions to request for a window whose display system needs
    /// `surface`.
    pub fn get_required_extensions(surface: &Vec<String>, target: Target) -> (extensions: Vec<String>)
        ensures
            names(extensions@) == extension_names(names(surface@), target),
    {
        let mut extensions = copy_names(surface);
        if target.debug {
            extensions.push(debug_utils_extension());
        }
        if target.apple {
            extensions.push(portability_extension());
        }
        assert(names(extensions@) =~= extension_names(names(surface@), target));
        extensions
    }

    /// The validation layers to request.
    pub fn validation_layers(target: Target) -> (layers: Vec<String>)
        ensures
            names(layers@) == layer_names(target),
    {
        let mut layers: Vec<String> = Vec::new();
        if target.debug {
            layers.push(String::from_str("VK_LAYER_KHRONOS_validation"));
        }
        assert(names(layers@) =~= layer_names(target));
        layers
    }

    /// The creation flags to request.
    pub fn instance_flags(target: Target) -> (flags: u32)
        ensures
            flags == creation_flags(target),
    {
        if target.apple {
            enumerate_portability_flag()
        } else {
            0
        }
    }

    /// The application-info record for an application called `app_name`.
    pub fn application_info(app_name: &str) -> (info: ApplicationInfo)
        ensures
            info@ == info_for(app_name@),
    {
        ApplicationInfo {
            application_name: String::from_str(app_name),
            engine_name: String::from_str("solaris"),
            application_version: make_api_version(0, 1, 0, 0),
            engine_version: make_api_version(0, 1, 0, 0),
            api_version: make_api_version(0, 1, 1, 0),
        }
    }

    /// The steps of construction that come before the driver is asked for
    /// an instance. `entry_loaded` says whether the driver library could be
    /// loaded, `surface` which extensions the window's display system
    /// needs. Gives the request to create the instance with, or the error
    /// that ends construction.
    pub fn prepare(
        app_name: &str,
        entry_loaded: bool,
        surface: &Vec<String>,
        target: Target,
    ) -> (outcome: Result<InstanceRequest, ContextError>)
        ensures
            match outcome {
                Ok(request) => preparation(app_name@, entry_loaded, names(surface@), target) == Ok::<
                    InstanceRequestView,
                    ContextError,
                >(request@),
                Err(e) => preparation(app_name@, entry_loaded, names(surface@), target) == Err::<
                    InstanceRequestView,
                    ContextError,
                >(e),
            },
    {
        if !entry_loaded {
            return Err(ContextError::EntryLoad);
        }
        if contains_terminator(app_name) {
            return Err(ContextError::InvalidName);
        }
        Ok(
            InstanceRequest {
                info: Context::application_info(app_name),
                extensions: Context::get_required_extensions(surface, target),
                layers: Context::validation_layers(target),
                flags: Context::instance_flags(target),
            },
        )
    }

    /// The last step of construction: `status` is what the driver answered
    /// to `request`, zero for success. Gives a live context on success and
    /// none at all on any other status.
    pub fn new(request: InstanceRequest, status: i32) -> (outcome: Result<Context, ContextError>)
        ensures
            match outcome {
                Ok(context) => context.is_live() && context.request() == request && creation(
                    request@,
                    status,
                ) == Ok::<InstanceRequestView, ContextError>(request@),
                Err(e) => creation(request@, status) == Err::<InstanceRequestView, ContextError>(e),
            },
    {
        if status == 0 {
            Ok(Context { request, live: true })
        } else {
            Err(ContextError::InstanceCreation(status))
        }
    }

    /// Whether the context still holds its instance and entry handles.
    pub closed spec fn is_live(&self) -> bool {
        self.live
    }

    /// The request that the instance was created from.
    pub closed spec fn request(&self) -> InstanceRequest {
        self.request
    }

    /// Whether the handles are still held.
    pub fn live(&self) -> (live: bool)
        ensures
            live == self.is_live(),
    {
        self.live
    }

    /// The request that the instance was created from.
    pub fn created_from(&self) -> (request: &InstanceRequest)
        ensures
            *request == self.request(),
    {
        &self.request
    }

    /// Gives up the handles: says which to release, in order, and holds
    /// none afterwards, so that a second teardown releases nothing.
    pub fn teardown(&mut self) -> (order: Vec<Handle>)
        ensures
            order@ == release_order(old(self).is_live()),
            !final(self).is_live(),
            final(self).request() == old(self).request(),
    {
        let mut order: Vec<Handle> = Vec::new();
        if self.live {
            order.push(Handle::Instance);
            order.push(Handle::Entry);
            self.live = false;
        }
        assert(order@ =~= release_order(old(self).is_live()));
        order
    }
}

/// What construction as a whole comes to, where `status` is the driver's
/// answer to the request, if it gets that far: the request that the live
/// context was created from, or the error of the first step that fails.
pub open spec fn construction(
    name: Seq<char>,
    entry_loaded: bool,
    surface: Seq<Seq<char>>,
    target: Target,
    status: i32,
) -> Result<InstanceRequestView, ContextError> {
    match preparation(name, entry_loaded, surface, target) {
        Err(e) => Err(e),
        Ok(request) => creation(request, status),
    }
}

/// Whether `k` is the first place in `requested` whose name is not among
/// `available`.
pub open spec fn first_missing(
    requested: Seq<Seq<char>>,
    available: Seq<Seq<char>>,
    k: int,
) -> bool {
    &&& 0 <= k < requested.len()
    &&& !available.contains(requested[k])
    &&& forall|j: int| 0 <= j < k ==> available.contains(#[trigger] requested[j])
}

/// Whether `name` is among `available`.
pub fn is_offered(available: &Vec<String>, name: &String) -> (found: bool)
    ensures
        found == names(available@).contains(name@),
{
    let mut i: usize = 0;
    while i < available.len()
        invariant
            i <= available.len(),
            forall|j: int| 0 <= j < i ==> names(available@)[j] != name@,
        decreases available.len() - i,
    {
        if available[i] == *name {
            assert(names(available@)[i as int] == name@);
            return true;
        }
        i += 1;
    }
    false
}

/// Holds the layers that are to be requested against those that the host
/// driver offers: the first one that is not offered is the error.
/// Construction itself does not make this check; a caller that has the
/// driver's list may make it first.
pub fn check_layer_support(
    requested: &Vec<String>,
    available: &Vec<String>,
) -> (outcome: Result<(), ContextError>)
    ensures
        match outcome {
            Ok(_) => forall|j: int|
                0 <= j < requested@.len() ==> names(available@).contains(
                    #[trigger] names(requested@)[j],
                ),
            Err(e) => exists|k: int|
                first_missing(names(requested@), names(available@), k) && e
                    == ContextError::ValidationLayerSupport(#[trigger] requested@[k]),
        },
{
    let mut i: usize = 0;
    while i < requested.len()
        invariant
            i <= requested.len(),
            forall|j: int|
                0 <= j < i ==> names(available@).contains(#[trigger] names(requested@)[j]),
        decreases requested.len() - i,
    {
        if !is_offered(available, &requested[i]) {
            assert(first_missing(names(requested@), names(available@), i as int));
            return Err(ContextError::ValidationLayerSupport(requested[i].clone()));
        }
        i += 1;
    }
    Ok(())
}

/// Counting over a list with one more name at its end.
pub proof fn lemma_occurrences_push(list: Seq<Seq<char>>, last: Seq<char>, name: Seq<char>)
    ensures
        occurrences(list.push(last), name) == occurrences(list, name) + if last == name {
            1nat
        } else {
            0nat
        },
{
    assert(list.push(last).drop_last() =~= list);
    assert(list.push(last).last() == last);
}

/// The two extensions that are added to the surface extensions have
/// different names.
pub proof fn lemma_added_names_differ()
    ensures
        debug_utils_name() != portability_name(),
{
    reveal_strlit("VK_EXT_debug_utils");
    reveal_strlit("VK_KHR_portability_enumeration");
    assert(debug_utils_name().len() == 18);
    assert(portability_name().len() == 30);
}

/// The extension list written as the surface extensions with the added
/// names pushed on, one case for each target.
proof fn lemma_extension_names_pushed(surface: Seq<Seq<char>>, target: Target)
    ensures
        extension_names(surface, target) == if target.debug && target.apple {
            surface.push(debug_utils_name()).push(portability_name())
        } else if target.debug {
            surface.push(debug_utils_name())
        } else if target.apple {
            surface.push(portability_name())
        } else {
            surface
        },
{
    if target.debug && target.apple {
        assert(extension_names(surface, target) =~= surface.push(debug_utils_name()).push(
            portability_name(),
        ));
    } else if target.debug {
        assert(extension_names(surface, target) =~= surface.push(debug_utils_name()));
    } else if target.apple {
        assert(extension_names(surface, target) =~= surface.push(portability_name()));
    } else {
        assert(extension_names(surface, target) =~= surface);
    }
}

/// Where the window's own extensions do not name debug utilities, the
/// list for a debug build names it exactly once and the list for a release
/// build never.
pub proof fn law_debug_utils_once(surface: Seq<Seq<char>>, target: Target)
    requires
        occurrences(surface, debug_utils_name()) == 0,
    ensures
        occurrences(extension_names(surface, target), debug_utils_name()) == if target.debug {
            1nat
        } else {
            0nat
        },
{
    lemma_added_names_differ();
    lemma_extension_names_pushed(surface, target);
    lemma_occurrences_push(surface, debug_utils_name(), debug_utils_name());
    lemma_occurrences_push(surface, portability_name(), debug_utils_name());
    lemma_occurrences_push(
        surface.push(debug_utils_name()),
        portability_name(),
        debug_utils_name(),
    );
}

/// Where the window's own extensions do not name portability enumeration,
/// the list for an Apple host names it exactly once and the list for any
/// other host never.
pub proof fn law_portability_once(surface: Seq<Seq<char>>, target: Target)
    requires
        occurrences(surface, portability_name()) == 0,
    ensures
        occurrences(extension_names(surface, target), portability_name()) == if target.apple {
            1nat
        } else {
            0nat
        },
{
    lemma_added_names_differ();
    lemma_extension_names_pushed(surface, target);
    lemma_occurrences_push(surface, debug_utils_name(), portability_name());
    lemma_occurrences_push(surface, portability_name(), portability_name());
    lemma_occurrences_push(
        surface.push(debug_utils_name()),
        portability_name(),
        portability_name(),
    );
}

/// The extension list keeps the surface extensions in front, in order, and
/// is longer by one for a debug build and by one for an Apple host.
pub proof fn law_extension_count(surface: Seq<Seq<char>>, target: Target)
    ensures
        extension_names(surface, target).len() == surface.len() + (if target.debug {
            1nat
        } else {
            0nat
        }) + (if target.apple {
            1nat
        } else {
            0nat
        }),
        extension_names(surface, target).subrange(0, surface.len() as int) == surface,
{
    assert(extension_names(surface, target).subrange(0, surface.len() as int) =~= surface);
}

/// A debug build requests the standard validation layer and nothing else;
/// a release build requests no layer.
pub proof fn law_layers_follow_build(target: Target)
    ensures
        target.debug ==> layer_names(target).len() == 1 && layer_names(target)[0]
            == validation_layer_name(),
        !target.debug ==> layer_names(target).len() == 0,
{
}

/// A name without a terminator never fails construction by itself: the
/// outcome is a context created from the full request, or the error of
/// the driver library or of the driver, and nothing in between.
pub proof fn law_construction_is_whole(
    name: Seq<char>,
    entry_loaded: bool,
    surface: Seq<Seq<char>>,
    target: Target,
    status: i32,
)
    requires
        !has_terminator(name),
    ensures
        entry_loaded && status == 0 ==> construction(name, entry_loaded, surface, target, status)
            == Ok::<InstanceRequestView, ContextError>(request_for(name, surface, target)),
        !entry_loaded ==> construction(name, entry_loaded, surface, target, status) == Err::<
            InstanceRequestView,
            ContextError,
        >(ContextError::EntryLoad),
        entry_loaded && status != 0 ==> construction(name, entry_loaded, surface, target, status)
            == Err::<InstanceRequestView, ContextError>(ContextError::InstanceCreation(status)),
{
}

/// A name with a terminator in it ends construction before the driver is
/// asked for anything: once the driver library is loaded the error is the
/// invalid name, whatever the driver would have answered, and no request
/// is made.
pub proof fn law_terminator_is_rejected(
    name: Seq<char>,
    surface: Seq<Seq<char>>,
    target: Target,
    status: i32,
)
    requires
        has_terminator(name),
    ensures
        preparation(name, true, surface, target) == Err::<InstanceRequestView, ContextError>(
            ContextError::InvalidName,
        ),
        construction(name, true, surface, target, status) == Err::<
            InstanceRequestView,
            ContextError,
        >(ContextError::InvalidName),
        preparation(name, false, surface, target) is Err,
{
}

} // verus!
