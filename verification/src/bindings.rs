//! The boundary to the `ash` bindings: version packing, flag tests and the
//! raw values of the enumerants that capability negotiation compares against.
//!
//! The contracts of the functions here are believed, not proved. Each
//! states what the `ash` source computes.

use vstd::prelude::*;

verus! {

/// `ash::vk::api_version_major`: bits 22 to 28 of a packed API version.
pub assume_specification[ ash::vk::api_version_major ](version: u32) -> (major: u32)
    ensures
        major == (version >> 22) & 0x7f,
;

/// `ash::vk::api_version_minor`: bits 12 to 21 of a packed API version.
pub assume_specification[ ash::vk::api_version_minor ](version: u32) -> (minor: u32)
    ensures
        minor == (version >> 12) & 0x3ff,
;

/// `ash::vk::api_version_patch`: the low 12 bits of a packed API version.
pub assume_specification[ ash::vk::api_version_patch ](version: u32) -> (patch: u32)
    ensures
        patch == version & 0xfff,
;

/// `ash::vk::make_api_version`: the four parts shifted into place and or-ed
/// together; bits shifted past the top are lost.
pub assume_specification[ ash::vk::make_api_version ](
    variant: u32,
    major: u32,
    minor: u32,
    patch: u32,
) -> (version: u32)
    ensures
        version == (variant << 29) | (major << 22) | (minor << 12) | patch,
;

/// Raw value of the colour format B8G8R8A8_UNORM.
pub const B8G8R8A8_UNORM: i32 = 44;

/// Raw value of the colour space SRGB_NONLINEAR.
pub const SRGB_NONLINEAR: i32 = 0;

/// Raw value of the depth format D16_UNORM_S8_UINT.
pub const D16_UNORM_S8_UINT: i32 = 128;

/// Raw value of the depth format D24_UNORM_S8_UINT.
pub const D24_UNORM_S8_UINT: i32 = 129;

/// Raw value of the depth format D32_SFLOAT_S8_UINT.
pub const D32_SFLOAT_S8_UINT: i32 = 130;

/// Raw value of the present mode IMMEDIATE.
pub const IMMEDIATE: i32 = 0;

/// Raw value of the present mode MAILBOX.
pub const MAILBOX: i32 = 1;

/// Raw value of the present mode FIFO.
pub const FIFO: i32 = 2;

/// The queue capability bit GRAPHICS.
pub const QUEUE_GRAPHICS: u32 = 0x1;

/// The format feature bit DEPTH_STENCIL_ATTACHMENT.
pub const FEATURE_DEPTH_STENCIL_ATTACHMENT: u32 = 0x200;

/// The raw value of the null handle.
pub const NULL_HANDLE: u64 = 0;

/// `ash::vk::Format::B8G8R8A8_UNORM` through `Format::as_raw`: the constant
/// is declared with the value 44.
#[verifier::external_body]
pub(crate) fn b8g8r8a8_unorm() -> (raw: i32)
    ensures
        raw == B8G8R8A8_UNORM,
{
    ash::vk::Format::B8G8R8A8_UNORM.as_raw()
}

/// `ash::vk::ColorSpaceKHR::SRGB_NONLINEAR` through `ColorSpaceKHR::as_raw`:
/// the constant is declared with the value 0.
#[verifier::external_body]
pub(crate) fn srgb_nonlinear() -> (raw: i32)
    ensures
        raw == SRGB_NONLINEAR,
{
    ash::vk::ColorSpaceKHR::SRGB_NONLINEAR.as_raw()
}

/// `ash::vk::Format::D16_UNORM_S8_UINT` through `Format::as_raw`: declared
/// with the value 128.
#[verifier::external_body]
pub(crate) fn d16_unorm_s8_uint() -> (raw: i32)
    ensures
        raw == D16_UNORM_S8_UINT,
{
    ash::vk::Format::D16_UNORM_S8_UINT.as_raw()
}

/// `ash::vk::Format::D24_UNORM_S8_UINT` through `Format::as_raw`: declared
/// with the value 129.
#[verifier::external_body]
pub(crate) fn d24_unorm_s8_uint() -> (raw: i32)
    ensures
        raw == D24_UNORM_S8_UINT,
{
    ash::vk::Format::D24_UNORM_S8_UINT.as_raw()
}

/// `ash::vk::Format::D32_SFLOAT_S8_UINT` through `Format::as_raw`: declared
/// with the value 130.
#[verifier::external_body]
pub(crate) fn d32_sfloat_s8_uint() -> (raw: i32)
    ensures
        raw == D32_SFLOAT_S8_UINT,
{
    ash::vk::Format::D32_SFLOAT_S8_UINT.as_raw()
}

/// `ash::vk::PresentModeKHR::IMMEDIATE` through `PresentModeKHR::as_raw`:
/// declared with the value 0.
#[verifier::external_body]
pub(crate) fn present_immediate() -> (raw: i32)
    ensures
        raw == IMMEDIATE,
{
    ash::vk::PresentModeKHR::IMMEDIATE.as_raw()
}

/// `ash::vk::PresentModeKHR::MAILBOX` through `PresentModeKHR::as_raw`:
/// declared with the value 1.
#[verifier::external_body]
pub(crate) fn present_mailbox() -> (raw: i32)
    ensures
        raw == MAILBOX,
{
    ash::vk::PresentModeKHR::MAILBOX.as_raw()
}

/// `ash::vk::PresentModeKHR::FIFO` through `PresentModeKHR::as_raw`: declared
/// with the value 2.
#[verifier::external_body]
pub(crate) fn present_fifo() -> (raw: i32)
    ensures
        raw == FIFO,
{
    ash::vk::PresentModeKHR::FIFO.as_raw()
}

/// `ash::vk::QueueFlags::contains` on `flags` and the constant
/// `QueueFlags::GRAPHICS` (declared as bit 0): true exactly when every bit of
/// the constant is set in `flags`.
#[verifier::external_body]
pub(crate) fn has_graphics(flags: u32) -> (yes: bool)
    ensures
        yes == (flags & QUEUE_GRAPHICS == QUEUE_GRAPHICS),
{
    ash::vk::QueueFlags::from_raw(flags).contains(ash::vk::QueueFlags::GRAPHICS)
}

/// `ash::vk::FormatFeatureFlags::contains` on `features` and the constant
/// `FormatFeatureFlags::DEPTH_STENCIL_ATTACHMENT` (declared as bit 9): true
/// exactly when every bit of the constant is set in `features`.
#[verifier::external_body]
pub(crate) fn has_depth_stencil_attachment(features: u32) -> (yes: bool)
    ensures
        yes == (features & FEATURE_DEPTH_STENCIL_ATTACHMENT == FEATURE_DEPTH_STENCIL_ATTACHMENT),
{
    ash::vk::FormatFeatureFlags::from_raw(features).contains(
        ash::vk::FormatFeatureFlags::DEPTH_STENCIL_ATTACHMENT,
    )
}

/// `ash::vk::SwapchainKHR::null` through `Handle::as_raw`: the null handle
/// is the raw value zero.
#[verifier::external_body]
pub(crate) fn null_swapchain() -> (raw: u64)
    ensures
        raw == NULL_HANDLE,
{
    ash::vk::Handle::as_raw(ash::vk::SwapchainKHR::null())
}

/// `ash::extensions::ext::DebugUtils::name`: the extension's name, which the
/// bindings spell `VK_EXT_debug_utils`.
#[verifier::external_body]
pub(crate) fn debug_utils_name() -> (name: String)
    ensures
        name@ == "VK_EXT_debug_utils"@,
{
    ash::extensions::ext::DebugUtils::name().to_string_lossy().into_owned()
}

} // verus!
