//! How the swapchain is negotiated with the surface: which surface format
//! and present mode are asked for, what extent the images get, how many
//! images there are, and how the images are shared between queue families.
//!
//! Enumerated values of the graphics API are carried as their raw codes.

use vstd::prelude::*;
use crate::device::QueueFamilyIndices;

verus! {

/// The raw code of the 8-bit BGRA sRGB format.
pub const FORMAT_B8G8R8A8_SRGB: i32 = 50;

/// The raw code of the nonlinear sRGB color space.
pub const COLOR_SPACE_SRGB_NONLINEAR: i32 = 0;

/// The raw code of the mailbox present mode.
pub const PRESENT_MODE_MAILBOX: i32 = 1;

/// The raw code of the first-in-first-out present mode, which every surface
/// supports.
pub const PRESENT_MODE_FIFO: i32 = 2;

/// A width and a height in pixels.
#[derive(Clone, Copy, Debug, PartialEq, Eq)]
pub struct Extent2D {
    pub width: u32,
    pub height: u32,
}

/// A pixel format together with the color space it is shown in.
#[derive(Clone, Copy, Debug, PartialEq, Eq)]
pub struct SurfaceFormat {
    pub format: i32,
    pub color_space: i32,
}

/// What a surface can do, as far as the negotiation reads it.
#[derive(Clone, Copy, Debug, PartialEq, Eq)]
pub struct SurfaceCapabilities {
    /// The least number of images a swapchain must have.
    pub min_image_count: u32,
    /// The greatest number of images a swapchain may have; 0 if there is no
    /// limit.
    pub max_image_count: u32,
    /// The extent of the surface; a width of `u32::MAX` says that the
    /// swapchain decides the extent.
    pub current_extent: Extent2D,
    /// The least extent a swapchain may have.
    pub min_image_extent: Extent2D,
    /// The greatest extent a swapchain may have.
    pub max_image_extent: Extent2D,
    /// The transform that the surface applies at present.
    pub current_transform: u32,
}

/// What a physical device offers for a surface.
#[derive(Clone, Debug)]
pub struct SwapchainSupport {
    pub capabilities: SurfaceCapabilities,
    pub formats: Vec<SurfaceFormat>,
    pub present_modes: Vec<i32>,
}

/// How the images of a swapchain are shared between queue families.
#[derive(Clone, Copy, Debug, PartialEq, Eq)]
pub enum SharingMode {
    /// One queue family owns an image at a time.
    Exclusive,
    /// The listed queue families use the images concurrently.
    Concurrent,
}

/// The negotiated properties of a swapchain.
#[derive(Clone, Debug, PartialEq, Eq)]
pub struct SwapchainConfig {
    /// The number of images asked for.
    pub min_image_count: u32,
    /// Format and color space of the images.
    pub format: SurfaceFormat,
    /// The extent of the images.
    pub extent: Extent2D,
    /// How the images are shared.
    pub sharing_mode: SharingMode,
    /// The queue families that share the images; empty when one family owns
    /// them.
    pub queue_family_indices: Vec<u32>,
    /// The transform applied before presentation.
    pub pre_transform: u32,
    /// The present mode.
    pub present_mode: i32,
}

/// Why no swapchain can be configured.
#[derive(Clone, Copy, Debug, PartialEq, Eq)]
pub enum SwapchainError {
    /// The surface offers no format.
    NoSurfaceFormat,
    /// The images would have no area.
    ZeroExtent,
    /// The number of images does not fit in 32 bits.
    TooManyImages,
}

/// The format that is asked for wherever the surface offers it.
pub open spec fn preferred_format() -> SurfaceFormat {
    SurfaceFormat { format: FORMAT_B8G8R8A8_SRGB, color_space: COLOR_SPACE_SRGB_NONLINEAR }
}

/// The surface format to use: the preferred one if it is offered, else the
/// first that is offered.
pub open spec fn chosen_format(formats: Seq<SurfaceFormat>) -> SurfaceFormat {
    if formats.contains(preferred_format()) {
        preferred_format()
    } else {
        formats[0]
    }
}

/// The present mode to use: mailbox if it is offered, else first-in-first-out.
pub open spec fn chosen_present_mode(present_modes: Seq<i32>) -> i32 {
    if present_modes.contains(PRESENT_MODE_MAILBOX) {
        PRESENT_MODE_MAILBOX
    } else {
        PRESENT_MODE_FIFO
    }
}

/// `value` brought into the range from `min` to `max`. Where the range is
/// empty the lower bound wins.
pub open spec fn clamped(min: u32, max: u32, value: u32) -> u32 {
    if max < min || value < min {
        min
    } else if value > max {
        max
    } else {
        value
    }
}

/// The extent of the swapchain's images: the surface's own extent where it
/// has one, else the window's size brought into the range that the surface
/// allows.
pub open spec fn chosen_extent(window: Extent2D, capabilities: SurfaceCapabilities) -> Extent2D {
    if capabilities.current_extent.width != u32::MAX {
        capabilities.current_extent
    } else {
        Extent2D {
            width: clamped(
                capabilities.min_image_extent.width,
                capabilities.max_image_extent.width,
                window.width,
            ),
            height: clamped(
                capabilities.min_image_extent.height,
                capabilities.max_image_extent.height,
                window.height,
            ),
        }
    }
}

/// The number of images to ask for: one more than the surface's minimum, so
/// that the renderer need not wait for the presentation engine, but no more
/// than the surface's maximum where it has one.
pub open spec fn chosen_image_count(capabilities: SurfaceCapabilities) -> int {
    if capabilities.max_image_count != 0 && capabilities.min_image_count + 1
        > capabilities.max_image_count {
        capabilities.max_image_count as int
    } else {
        capabilities.min_image_count + 1
    }
}

/// How the images are shared: concurrently between the transfer, graphics
/// and present families where transfer and present differ, else not at all.
pub open spec fn chosen_sharing(graphics: u32, indices: QueueFamilyIndices) -> (
    SharingMode,
    Seq<u32>,
) {
    if indices.transfer != indices.present {
        (SharingMode::Concurrent, seq![indices.transfer, graphics, indices.present])
    } else {
        (SharingMode::Exclusive, Seq::empty())
    }
}

/// The negotiated image count is never below the surface's minimum unless
/// the surface's maximum forces it, and never above a maximum that exists.
pub proof fn lemma_image_count_in_range(capabilities: SurfaceCapabilities)
    ensures
        capabilities.max_image_count != 0 ==> chosen_image_count(capabilities)
            <= capabilities.max_image_count,
        capabilities.max_image_count == 0 || capabilities.min_image_count
            < capabilities.max_image_count ==> chosen_image_count(capabilities)
            == capabilities.min_image_count + 1,
        capabilities.max_image_count != 0 ==> chosen_image_count(capabilities) <= u32::MAX,
{
}

/// Picks the surface format among those that the surface offers.
pub fn get_swapchain_surface_format(formats: &Vec<SurfaceFormat>) -> (format: SurfaceFormat)
    requires
        formats.len() > 0,
    ensures
        format == chosen_format(formats@),
{
    let mut i: usize = 0;
    while i < formats.len()
        invariant
            i <= formats.len(),
            forall|k: int| 0 <= k < i ==> formats[k] != preferred_format(),
        decreases formats.len() - i,
    {
        let f = formats[i];
        if f.format == FORMAT_B8G8R8A8_SRGB && f.color_space == COLOR_SPACE_SRGB_NONLINEAR {
            return f;
        }
        i += 1;
    }
    formats[0]
}

/// Picks the present mode among those that the surface offers.
pub fn get_swapchain_present_mode(present_modes: &Vec<i32>) -> (mode: i32)
    ensures
        mode == chosen_present_mode(present_modes@),
{
    let mut i: usize = 0;
    while i < present_modes.len()
        invariant
            i <= present_modes.len(),
            forall|k: int| 0 <= k < i ==> present_modes[k] != PRESENT_MODE_MAILBOX,
        decreases present_modes.len() - i,
    {
        if present_modes[i] == PRESENT_MODE_MAILBOX {
            return PRESENT_MODE_MAILBOX;
        }
        i += 1;
    }
    PRESENT_MODE_FIFO
}

fn clamp(min: u32, max: u32, value: u32) -> (r: u32)
    ensures
        r == clamped(min, max, value),
{
    let upper = if max < value {
        max
    } else {
        value
    };
    if min > upper {
        min
    } else {
        upper
    }
}

/// Decides the extent of the swapchain's images for a window whose inner
/// size is `window`.
pub fn get_swapchain_extent(window: Extent2D, capabilities: &SurfaceCapabilities) -> (extent:
    Extent2D)
    ensures
        extent == chosen_extent(window, *capabilities),
{
    if capabilities.current_extent.width != u32::MAX {
        capabilities.current_extent
    } else {
        Extent2D {
            width: clamp(
                capabilities.min_image_extent.width,
                capabilities.max_image_extent.width,
                window.width,
            ),
            height: clamp(
                capabilities.min_image_extent.height,
                capabilities.max_image_extent.height,
                window.height,
            ),
        }
    }
}

/// Decides the number of images; nothing if the number does not fit in 32
/// bits, which happens only where the surface's minimum is the greatest
/// 32-bit number and it names no maximum.
pub fn get_swapchain_image_count(capabilities: &SurfaceCapabilities) -> (count: Option<u32>)
    ensures
        count matches Some(n) ==> n == chosen_image_count(*capabilities),
        count is None <==> chosen_image_count(*capabilities) > u32::MAX,
{
    if capabilities.max_image_count != 0 && capabilities.min_image_count
        >= capabilities.max_image_count {
        Some(capabilities.max_image_count)
    } else if capabilities.min_image_count == u32::MAX {
        None
    } else {
        Some(capabilities.min_image_count + 1)
    }
}

/// An extent without area.
pub open spec fn is_empty(extent: Extent2D) -> bool {
    extent.width == 0 || extent.height == 0
}

/// What stands in the way of a swapchain for this surface and window, if
/// anything does: the first of a missing surface format, an extent without
/// area, and an image count that does not fit in 32 bits.
pub open spec fn obstacle(support: SwapchainSupport, window: Extent2D) -> Option<SwapchainError> {
    if support.formats@.len() == 0 {
        Some(SwapchainError::NoSurfaceFormat)
    } else if is_empty(chosen_extent(window, support.capabilities)) {
        Some(SwapchainError::ZeroExtent)
    } else if chosen_image_count(support.capabilities) > u32::MAX {
        Some(SwapchainError::TooManyImages)
    } else {
        None
    }
}

/// `config` is the configuration that the negotiation arrives at.
pub open spec fn chosen_config(
    support: SwapchainSupport,
    window: Extent2D,
    graphics: u32,
    indices: QueueFamilyIndices,
    config: SwapchainConfig,
) -> bool {
    &&& config.min_image_count == chosen_image_count(support.capabilities)
    &&& config.format == chosen_format(support.formats@)
    &&& config.extent == chosen_extent(window, support.capabilities)
    &&& config.sharing_mode == chosen_sharing(graphics, indices).0
    &&& config.queue_family_indices@ == chosen_sharing(graphics, indices).1
    &&& config.pre_transform == support.capabilities.current_transform
    &&& config.present_mode == chosen_present_mode(support.present_modes@)
}

/// Negotiates the swapchain for a surface with the given support, a window
/// of the given inner size, the queue family that draws and the queue
/// families that upload and present. Fails exactly when something stands in
/// the way, and says what.
pub fn create_swapchain(
    support: &SwapchainSupport,
    window: Extent2D,
    graphics: u32,
    indices: &QueueFamilyIndices,
) -> (r: Result<SwapchainConfig, SwapchainError>)
    ensures
        match r {
            Ok(config) => obstacle(*support, window) is None && chosen_config(
                *support,
                window,
                graphics,
                *indices,
                config,
            ),
            Err(e) => obstacle(*support, window) == Some(e),
        },
{
    if support.formats.len() == 0 {
        return Err(SwapchainError::NoSurfaceFormat);
    }
    let format = get_swapchain_surface_format(&support.formats);
    let present_mode = get_swapchain_present_mode(&support.present_modes);
    let extent = get_swapchain_extent(window, &support.capabilities);
    if extent.width == 0 || extent.height == 0 {
        return Err(SwapchainError::ZeroExtent);
    }
    let min_image_count = match get_swapchain_image_count(&support.capabilities) {
        Some(n) => n,
        None => {
            return Err(SwapchainError::TooManyImages);
        },
    };
    let mut queue_family_indices: Vec<u32> = Vec::new();
    let sharing_mode = if indices.transfer != indices.present {
        queue_family_indices.push(indices.transfer);
        queue_family_indices.push(graphics);
        queue_family_indices.push(indices.present);
        SharingMode::Concurrent
    } else {
        SharingMode::Exclusive
    };
    assert(queue_family_indices@ =~= chosen_sharing(graphics, *indices).1);
    Ok(
        SwapchainConfig {
            min_image_count,
            format,
            extent,
            sharing_mode,
            queue_family_indices,
            pre_transform: support.capabilities.current_transform,
            present_mode,
        },
    )
}

} // verus!
