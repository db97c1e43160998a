use solaris::error::ContextError;

#[test]
fn missing_layer_message_names_the_layer() {
    let e = ContextError::ValidationLayerSupport("VK_LAYER_KHRONOS_validation".to_string());
    assert_eq!(e.message(), "Failed to find layer named: VK_LAYER_KHRONOS_validation");
}

#[test]
fn each_error_has_its_message() {
    assert_eq!(ContextError::EntryLoad.message(), "Failed to load the graphics driver library");
    assert_eq!(ContextError::InvalidName.message(), "Name contains an embedded terminator");
    assert_eq!(
        ContextError::InstanceCreation(-9).message(),
        "Failed to create the graphics instance"
    );
}
