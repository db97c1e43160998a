//! The few values that the graphics driver's binding defines and the
//! instance request is built from.

use vstd::prelude::*;

verus! {

/// A version number as the driver packs it into 32 bits: three bits of
/// variant, seven of major, ten of minor and twelve of patch, from the top.
pub open spec fn packed_version(variant: u32, major: u32, minor: u32, patch: u32) -> u32 {
    (variant << 29u32) | (major << 22u32) | (minor << 12u32) | patch
}

/// The name of the debug-utilities extension.
pub open spec fn debug_utils_name() -> Seq<char> {
    "VK_EXT_debug_utils"@
}

/// The name of the portability-enumeration extension.
pub open spec fn portability_name() -> Seq<char> {
    "VK_KHR_portability_enumeration"@
}

/// The creation flag that asks the driver to enumerate non-conformant
/// (portability) devices too.
pub open spec fn portability_flag() -> u32 {
    1u32
}

/// Calls `ash::vk::make_api_version`. Trusted: the result is the four parts
/// shifted to their places and or-ed together, bits shifted past the top
/// being dropped; so the binding's source computes it.
#[verifier::external_body]
pub(crate) fn make_api_version(variant: u32, major: u32, minor: u32, patch: u32) -> (version: u32)
    ensures
        version == packed_version(variant, major, minor, patch),
{
    ash::vk::make_api_version(variant, major, minor, patch)
}

/// Reads `ash::ext::debug_utils::NAME`. Trusted: the constant spells
/// `VK_EXT_debug_utils`.
#[verifier::external_body]
pub(crate) fn debug_utils_extension() -> (name: String)
    ensures
        name@ == debug_utils_name(),
{
    ash::ext::debug_utils::NAME.to_string_lossy().into_owned()
}

/// Reads `ash::khr::portability_enumeration::NAME`. Trusted: the constant
/// spells `VK_KHR_portability_enumeration`.
#[verifier::external_body]
pub(crate) fn portability_extension() -> (name: String)
    ensures
        name@ == portability_name(),
{
    ash::khr::portability_enumeration::NAME.to_string_lossy().into_owned()
}

/// Reads `ash::vk::InstanceCreateFlags::ENUMERATE_PORTABILITY_KHR` through
/// `as_raw`. Trusted: the flag is the lowest bit.
#[verifier::external_body]
pub(crate) fn enumerate_portability_flag() -> (flag: u32)
    ensures
        flag == portability_flag(),
{
    ash::vk::InstanceCreateFlags::ENUMERATE_PORTABILITY_KHR.as_raw()
}

} // verus!
