//! The few places where this crate leans on `ash`: constants of the Vulkan
//! headers and the wording of result codes. Nothing here is proved; each
//! contract restates what `ash` defines.

use ash::vk;
use vstd::prelude::*;

verus! {

/// The sentence that `ash` prints for a raw Vulkan result code.
pub uninterp spec fn vk_result_text(code: i32) -> Seq<char>;

/// Formats a raw result code with the `Display` impl of `ash::vk::Result`.
///
/// Trusted: the text depends on the code alone, so it is given the name
/// [`vk_result_text`]; nothing is claimed about its wording.
#[verifier::external_body]
pub(crate) fn describe_vk_result(code: i32) -> (text: String)
    ensures
        text@ == vk_result_text(code),
{
    vk::Result::from_raw(code).to_string()
}

/// Tests a raw heap flag word with `ash::vk::MemoryHeapFlags::contains`
/// against `MemoryHeapFlags::DEVICE_LOCAL`.
///
/// Trusted: `contains` holds when every bit of its argument is set in the
/// receiver, and `DEVICE_LOCAL` is the lowest bit.
#[verifier::external_body]
pub(crate) fn has_device_local_flag(flags: u32) -> (set: bool)
    ensures
        set == (flags & 1 == 1),
{
    vk::MemoryHeapFlags::from_raw(flags).contains(vk::MemoryHeapFlags::DEVICE_LOCAL)
}

/// The raw values of the four adapter types that `ash::vk::PhysicalDeviceType`
/// names, read with `as_raw`: integrated, discrete, virtual, CPU.
///
/// Trusted: the constants are 1, 2, 3 and 4 in that order.
#[verifier::external_body]
pub(crate) fn device_type_codes() -> (codes: [i32; 4])
    ensures
        codes@ == seq![1i32, 2i32, 3i32, 4i32],
{
    [
        vk::PhysicalDeviceType::INTEGRATED_GPU.as_raw(),
        vk::PhysicalDeviceType::DISCRETE_GPU.as_raw(),
        vk::PhysicalDeviceType::VIRTUAL_GPU.as_raw(),
        vk::PhysicalDeviceType::CPU.as_raw(),
    ]
}

/// Reads the constant `ash::vk::API_VERSION_1_0`.
///
/// Trusted: `ash` builds it with `make_api_version(0, 1, 0, 0)`, which puts
/// the major number at bit 22 and leaves every other field zero.
#[verifier::external_body]
pub(crate) fn api_version_1_0() -> (version: u32)
    ensures
        version == 0x40_0000,
{
    vk::API_VERSION_1_0
}

} // verus!
