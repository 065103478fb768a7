//! Choice of the surface format and present mode, and the extent and image
//! count of a swapchain.

use crate::bindings;
use crate::error::Error;
use vstd::prelude::*;

verus! {

/// A width and a height in pixels.
#[derive(Clone, Copy, Debug, PartialEq, Eq, Structural)]
pub struct Extent2D {
    pub width: u32,
    pub height: u32,
}

/// A width, a height and a depth in pixels.
#[derive(Clone, Copy, Debug, PartialEq, Eq, Structural)]
pub struct Extent3D {
    pub width: u32,
    pub height: u32,
    pub depth: u32,
}

/// A pixel format together with a colour space, both as raw values.
#[derive(Clone, Copy, Debug, PartialEq, Eq, Structural)]
pub struct SurfaceFormat {
    pub format: i32,
    pub color_space: i32,
}

/// What a surface can do, as far as a swapchain depends on it.
#[derive(Clone, Copy, Debug, PartialEq, Eq, Structural)]
pub struct SurfaceCapabilities {
    pub min_image_count: u32,
    /// The largest number of images, or zero where there is no limit.
    pub max_image_count: u32,
    /// The extent of the surface, or `u32::MAX` in the width where the
    /// swapchain decides the extent.
    pub current_extent: Extent2D,
    pub min_image_extent: Extent2D,
    pub max_image_extent: Extent2D,
    /// The raw bits of the current transform.
    pub current_transform: u32,
}

/// The fewest images that a swapchain is asked to have.
pub const WANTED_IMAGE_COUNT: u32 = 3;

/// The width that says "the swapchain decides the extent".
pub const ANY_EXTENT: u32 = 0xffff_ffff;

/// The surface format that is taken wherever the surface offers it.
pub open spec fn preferred_surface_format() -> SurfaceFormat {
    SurfaceFormat { format: bindings::B8G8R8A8_UNORM, color_space: bindings::SRGB_NONLINEAR }
}

/// The outcome of surface format selection: the preferred pair where the
/// surface reports it, else the first pair reported.
pub open spec fn surface_format_choice(formats: Result<Vec<SurfaceFormat>, i32>) -> Result<
    SurfaceFormat,
    Error,
> {
    match formats {
        Err(_) => Err(Error::SurfaceFormats),
        Ok(list) => if list@.contains(preferred_surface_format()) {
            Ok(preferred_surface_format())
        } else if list@.len() > 0 {
            Ok(list@[0])
        } else {
            Err(Error::NoSurfaceFormat)
        },
    }
}

/// The outcome of present mode selection: mailbox before immediate before
/// first-in-first-out, which every surface supports.
pub open spec fn present_mode_choice(modes: Result<Vec<i32>, i32>) -> Result<i32, Error> {
    match modes {
        Err(_) => Err(Error::PresentModes),
        Ok(list) => if list@.len() == 0 {
            Err(Error::PresentModes)
        } else if list@.contains(bindings::MAILBOX) {
            Ok(bindings::MAILBOX)
        } else if list@.contains(bindings::IMMEDIATE) {
            Ok(bindings::IMMEDIATE)
        } else {
            Ok(bindings::FIFO)
        },
    }
}

/// `value` brought down to `highest` and then up to `lowest`.
pub open spec fn clamped(lowest: u32, highest: u32, value: u32) -> u32 {
    let capped = if value < highest {
        value
    } else {
        highest
    };
    if capped < lowest {
        lowest
    } else {
        capped
    }
}

/// The extent of a swapchain: the surface's current extent, or, where the
/// surface leaves the choice open, the window's size clamped to the
/// surface's limits.
pub open spec fn surface_extent(window: Extent2D, capabilities: SurfaceCapabilities) -> Extent2D {
    if capabilities.current_extent.width == ANY_EXTENT {
        Extent2D {
            width: clamped(
                capabilities.min_image_extent.width,
                capabilities.max_image_extent.width,
                window.width,
            ),
            height: clamped(
                capabilities.min_image_extent.height,
                capabilities.max_image_extent.height,
                window.height,
            ),
        }
    } else {
        capabilities.current_extent
    }
}

/// The number of images that a swapchain is asked for: at least three and
/// at least the surface's minimum, but no more than the surface's maximum
/// where it has one.
pub open spec fn image_count(capabilities: SurfaceCapabilities) -> u32 {
    let wanted = if capabilities.min_image_count > WANTED_IMAGE_COUNT {
        capabilities.min_image_count
    } else {
        WANTED_IMAGE_COUNT
    };
    if capabilities.max_image_count != 0 && capabilities.max_image_count < wanted {
        capabilities.max_image_count
    } else {
        wanted
    }
}

fn holds_format(list: &Vec<SurfaceFormat>, wanted: SurfaceFormat) -> (found: bool)
    ensures
        found == list@.contains(wanted),
{
    let mut i: usize = 0;
    while i < list.len()
        invariant
            i <= list.len(),
            forall|k: int| 0 <= k < i ==> list@[k] != wanted,
        decreases list.len() - i,
    {
        if list[i] == wanted {
            return true;
        }
        i += 1;
    }
    false
}

fn holds_mode(list: &Vec<i32>, wanted: i32) -> (found: bool)
    ensures
        found == list@.contains(wanted),
{
    let mut i: usize = 0;
    while i < list.len()
        invariant
            i <= list.len(),
            forall|k: int| 0 <= k < i ==> list@[k] != wanted,
        decreases list.len() - i,
    {
        if list[i] == wanted {
            return true;
        }
        i += 1;
    }
    false
}

/// Selects the surface format. `formats` is what querying the surface's
/// formats gave.
pub fn get_surface_format(formats: &Result<Vec<SurfaceFormat>, i32>) -> (choice: Result<
    SurfaceFormat,
    Error,
>)
    ensures
        choice == surface_format_choice(*formats),
{
    match formats {
        Err(_) => Err(Error::SurfaceFormats),
        Ok(list) => {
            let preferred = SurfaceFormat {
                format: bindings::b8g8r8a8_unorm(),
                color_space: bindings::srgb_nonlinear(),
            };
            if holds_format(list, preferred) {
                Ok(preferred)
            } else if list.len() > 0 {
                Ok(list[0])
            } else {
                Err(Error::NoSurfaceFormat)
            }
        },
    }
}

/// Selects the present mode. `modes` is what querying the surface's present
/// modes gave.
pub fn get_present_mode(modes: &Result<Vec<i32>, i32>) -> (choice: Result<i32, Error>)
    ensures
        choice == present_mode_choice(*modes),
{
    match modes {
        Err(_) => Err(Error::PresentModes),
        Ok(list) => {
            if list.len() == 0 {
                return Err(Error::PresentModes);
            }
            let mailbox: i32 = bindings::present_mailbox();
            if holds_mode(list, mailbox) {
                return Ok(mailbox);
            }
            let immediate: i32 = bindings::present_immediate();
            if holds_mode(list, immediate) {
                return Ok(immediate);
            }
            Ok(bindings::present_fifo())
        },
    }
}

fn clamp(lowest: u32, highest: u32, value: u32) -> (r: u32)
    ensures
        r == clamped(lowest, highest, value),
{
    let capped: u32 = if value < highest {
        value
    } else {
        highest
    };
    if capped < lowest {
        lowest
    } else {
        capped
    }
}

/// Computes the extent of a swapchain from the window's size in pixels and
/// the surface's capabilities. Where the surface's limits are in order, a
/// clamped extent lies within them.
pub fn get_surface_extent(window: Extent2D, capabilities: &SurfaceCapabilities) -> (extent: Extent2D)
    ensures
        extent == surface_extent(window, *capabilities),
{
    if capabilities.current_extent.width == ANY_EXTENT {
        Extent2D {
            width: clamp(
                capabilities.min_image_extent.width,
                capabilities.max_image_extent.width,
                window.width,
            ),
            height: clamp(
                capabilities.min_image_extent.height,
                capabilities.max_image_extent.height,
                window.height,
            ),
        }
    } else {
        capabilities.current_extent
    }
}

/// Computes the number of images to ask a swapchain for.
pub fn get_image_count(capabilities: &SurfaceCapabilities) -> (count: u32)
    ensures
        count == image_count(*capabilities),
{
    let wanted: u32 = if capabilities.min_image_count > WANTED_IMAGE_COUNT {
        capabilities.min_image_count
    } else {
        WANTED_IMAGE_COUNT
    };
    if capabilities.max_image_count != 0 && capabilities.max_image_count < wanted {
        capabilities.max_image_count
    } else {
        wanted
    }
}

/// A clamped value lies between the limits whenever the limits are in
/// order, and is the value itself whenever the value already does.
pub proof fn clamped_within(lowest: u32, highest: u32, value: u32)
    ensures
        lowest <= highest ==> lowest <= clamped(lowest, highest, value) <= highest,
        lowest <= value <= highest ==> clamped(lowest, highest, value) == value,
{
}

/// Where the surface leaves the extent open and its limits are in order,
/// the extent lies within the limits in both directions; where it does not
/// leave it open, the extent is the surface's own, whatever the window's
/// size.
pub proof fn surface_extent_within(window: Extent2D, capabilities: SurfaceCapabilities)
    ensures
        capabilities.current_extent.width == ANY_EXTENT && capabilities.min_image_extent.width
            <= capabilities.max_image_extent.width ==> capabilities.min_image_extent.width
            <= surface_extent(window, capabilities).width <= capabilities.max_image_extent.width,
        capabilities.current_extent.width == ANY_EXTENT && capabilities.min_image_extent.height
            <= capabilities.max_image_extent.height ==> capabilities.min_image_extent.height
            <= surface_extent(window, capabilities).height
            <= capabilities.max_image_extent.height,
        capabilities.current_extent.width != ANY_EXTENT ==> surface_extent(window, capabilities)
            == capabilities.current_extent,
{
}

/// The image count is never above a surface's maximum where it has one, and
/// is at least three and at least the surface's minimum where the maximum
/// allows it.
pub proof fn image_count_bounds(capabilities: SurfaceCapabilities)
    ensures
        capabilities.max_image_count != 0 ==> image_count(capabilities)
            <= capabilities.max_image_count,
        capabilities.max_image_count == 0 || capabilities.max_image_count >= WANTED_IMAGE_COUNT
            ==> image_count(capabilities) >= WANTED_IMAGE_COUNT,
        capabilities.max_image_count == 0 || capabilities.max_image_count
            >= capabilities.min_image_count ==> image_count(capabilities)
            >= capabilities.min_image_count,
{
}

} // verus!
