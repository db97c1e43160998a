use vstd::prelude::*;
use vstd::string::StringExecFns;

verus! {

/// Why a graphics context could not be produced.
#[derive(Debug, Clone, PartialEq, Eq)]
pub enum ContextError {
    /// The native driver library could not be located or loaded.
    EntryLoad,
    /// A name handed to the driver holds an embedded terminator character.
    InvalidName,
    /// The driver rejected the instance request; the field is its status code.
    InstanceCreation(i32),
    /// The named validation layer is not offered by the host driver.
    ValidationLayerSupport(String),
}

/// The text of the diagnostic for `e`, as a sequence of characters.
pub open spec fn message_of(e: ContextError) -> Seq<char> {
    match e {
        ContextError::EntryLoad => "Failed to load the graphics driver library"@,
        ContextError::InvalidName => "Name contains an embedded terminator"@,
        ContextError::InstanceCreation(_) => "Failed to create the graphics instance"@,
        ContextError::ValidationLayerSupport(name) => "Failed to find layer named: "@ + name@,
    }
}

impl ContextError {
    /// The diagnostic shown for this error.
    pub fn message(&self) -> (text: String)
        ensures
            text@ == message_of(*self),
    {
        match self {
            ContextError::EntryLoad => String::from_str(
                "Failed to load the graphics driver library",
            ),
            ContextError::InvalidName => String::from_str("Name contains an embedded terminator"),
            ContextError::InstanceCreation(_) => String::from_str(
                "Failed to create the graphics instance",
            ),
            ContextError::ValidationLayerSupport(name) => {
                let mut text = String::from_str("Failed to find layer named: ");
                text.append(name.as_str());
                text
            },
        }
    }
}

} // verus!
