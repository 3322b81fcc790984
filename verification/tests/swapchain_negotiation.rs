use frame_pacing::device::QueueFamilyIndices;
use frame_pacing::swapchain::{
    create_swapchain, get_swapchain_extent, get_swapchain_image_count, get_swapchain_present_mode,
    get_swapchain_surface_format, Extent2D, SharingMode, SurfaceCapabilities, SurfaceFormat,
    SwapchainConfig, SwapchainError, SwapchainSupport, COLOR_SPACE_SRGB_NONLINEAR,
    FORMAT_B8G8R8A8_SRGB, PRESENT_MODE_FIFO, PRESENT_MODE_MAILBOX,
};
use vulkanalia::vk;

fn extent(width: u32, height: u32) -> Extent2D {
    Extent2D { width, height }
}

fn capabilities(min: u32, max: u32) -> SurfaceCapabilities {
    SurfaceCapabilities {
        min_image_count: min,
        max_image_count: max,
        current_extent: extent(u32::MAX, u32::MAX),
        min_image_extent: extent(100, 50),
        max_image_extent: extent(4000, 3000),
        current_transform: 1,
    }
}

fn srgb() -> SurfaceFormat {
    SurfaceFormat { format: FORMAT_B8G8R8A8_SRGB, color_space: COLOR_SPACE_SRGB_NONLINEAR }
}

#[test]
fn raw_codes_are_those_of_the_api() {
    assert_eq!(FORMAT_B8G8R8A8_SRGB, vk::Format::B8G8R8A8_SRGB.as_raw());
    assert_eq!(COLOR_SPACE_SRGB_NONLINEAR, vk::ColorSpaceKHR::SRGB_NONLINEAR.as_raw());
    assert_eq!(PRESENT_MODE_MAILBOX, vk::PresentModeKHR::MAILBOX.as_raw());
    assert_eq!(PRESENT_MODE_FIFO, vk::PresentModeKHR::FIFO.as_raw());
}

#[test]
fn preferred_format_is_taken_wherever_it_stands() {
    let other = SurfaceFormat { format: 44, color_space: 0 };
    let linear = SurfaceFormat { format: FORMAT_B8G8R8A8_SRGB, color_space: 1000104002 };
    assert_eq!(get_swapchain_surface_format(&vec![srgb()]), srgb());
    assert_eq!(get_swapchain_surface_format(&vec![other, linear, srgb()]), srgb());
    assert_eq!(get_swapchain_surface_format(&vec![other, srgb(), linear]), srgb());
}

#[test]
fn first_format_is_taken_where_the_preferred_is_missing() {
    let other = SurfaceFormat { format: 44, color_space: 0 };
    let linear = SurfaceFormat { format: FORMAT_B8G8R8A8_SRGB, color_space: 1000104002 };
    let unorm = SurfaceFormat { format: 37, color_space: COLOR_SPACE_SRGB_NONLINEAR };
    assert_eq!(get_swapchain_surface_format(&vec![other]), other);
    assert_eq!(get_swapchain_surface_format(&vec![linear, unorm, other]), linear);
    assert_eq!(get_swapchain_surface_format(&vec![unorm, linear]), unorm);
}

#[test]
fn mailbox_is_taken_where_offered_else_fifo() {
    assert_eq!(get_swapchain_present_mode(&vec![0, 2, 1, 3]), PRESENT_MODE_MAILBOX);
    assert_eq!(get_swapchain_present_mode(&vec![1]), 1);
    assert_eq!(get_swapchain_present_mode(&vec![0, 2, 3]), PRESENT_MODE_FIFO);
    assert_eq!(get_swapchain_present_mode(&vec![0, 3]), 2);
    assert_eq!(get_swapchain_present_mode(&Vec::new()), 2);
}

#[test]
fn surface_extent_wins_over_the_window() {
    let mut caps = capabilities(2, 8);
    caps.current_extent = extent(1280, 720);
    assert_eq!(get_swapchain_extent(extent(1, 1), &caps), extent(1280, 720));
    caps.current_extent = extent(0, 0);
    assert_eq!(get_swapchain_extent(extent(800, 600), &caps), extent(0, 0));
    // Only the width says whether the surface has an extent of its own.
    caps.current_extent = extent(640, u32::MAX);
    assert_eq!(get_swapchain_extent(extent(800, 600), &caps), extent(640, u32::MAX));
}

#[test]
fn window_size_is_clamped_to_the_surface_limits() {
    let caps = capabilities(2, 8);
    assert_eq!(get_swapchain_extent(extent(800, 600), &caps), extent(800, 600));
    assert_eq!(get_swapchain_extent(extent(100, 50), &caps), extent(100, 50));
    assert_eq!(get_swapchain_extent(extent(4000, 3000), &caps), extent(4000, 3000));
    assert_eq!(get_swapchain_extent(extent(99, 49), &caps), extent(100, 50));
    assert_eq!(get_swapchain_extent(extent(0, 0), &caps), extent(100, 50));
    assert_eq!(get_swapchain_extent(extent(4001, 3001), &caps), extent(4000, 3000));
    assert_eq!(get_swapchain_extent(extent(u32::MAX, 10), &caps), extent(4000, 50));
    assert_eq!(get_swapchain_extent(extent(10, u32::MAX), &caps), extent(100, 3000));
}

#[test]
fn lower_limit_wins_where_the_limits_cross() {
    let mut caps = capabilities(2, 8);
    caps.min_image_extent = extent(500, 400);
    caps.max_image_extent = extent(300, 200);
    assert_eq!(get_swapchain_extent(extent(350, 250), &caps), extent(500, 400));
    assert_eq!(get_swapchain_extent(extent(1, 1), &caps), extent(500, 400));
    assert_eq!(get_swapchain_extent(extent(9000, 9000), &caps), extent(500, 400));
}

#[test]
fn one_image_more_than_the_minimum() {
    assert_eq!(get_swapchain_image_count(&capabilities(2, 8)), Some(3));
    assert_eq!(get_swapchain_image_count(&capabilities(1, 0)), Some(2));
    assert_eq!(get_swapchain_image_count(&capabilities(0, 0)), Some(1));
    assert_eq!(get_swapchain_image_count(&capabilities(2, 3)), Some(3));
    assert_eq!(get_swapchain_image_count(&capabilities(u32::MAX - 1, 0)), Some(u32::MAX));
}

#[test]
fn image_count_stops_at_the_maximum() {
    assert_eq!(get_swapchain_image_count(&capabilities(3, 3)), Some(3));
    assert_eq!(get_swapchain_image_count(&capabilities(2, 2)), Some(2));
    assert_eq!(get_swapchain_image_count(&capabilities(5, 2)), Some(2));
    assert_eq!(get_swapchain_image_count(&capabilities(u32::MAX, u32::MAX)), Some(u32::MAX));
    assert_eq!(get_swapchain_image_count(&capabilities(u32::MAX, 4)), Some(4));
}

#[test]
fn image_count_beyond_32_bits_is_refused() {
    assert_eq!(get_swapchain_image_count(&capabilities(u32::MAX, 0)), None);
}

fn support() -> SwapchainSupport {
    SwapchainSupport {
        capabilities: capabilities(2, 8),
        formats: vec![SurfaceFormat { format: 44, color_space: 0 }, srgb()],
        present_modes: vec![2, 0],
    }
}

#[test]
fn swapchain_for_one_queue_family() {
    let (graphics, indices) = (0, QueueFamilyIndices { transfer: 0, present: 0 });
    assert_eq!(
        create_swapchain(&support(), extent(800, 600), graphics, &indices),
        Ok(SwapchainConfig {
            min_image_count: 3,
            format: srgb(),
            extent: extent(800, 600),
            sharing_mode: SharingMode::Exclusive,
            queue_family_indices: Vec::new(),
            pre_transform: 1,
            present_mode: PRESENT_MODE_FIFO,
        })
    );
    // Graphics plays no part in the decision.
    let (graphics, indices) = (5, QueueFamilyIndices { transfer: 2, present: 2 });
    let config = create_swapchain(&support(), extent(800, 600), graphics, &indices).unwrap();
    assert_eq!(config.sharing_mode, SharingMode::Exclusive);
    assert_eq!(config.queue_family_indices, Vec::<u32>::new());
}

#[test]
fn swapchain_shared_between_queue_families() {
    let mut support = support();
    support.present_modes = vec![0, 1];
    support.capabilities.current_extent = extent(1920, 1080);
    support.capabilities.current_transform = 4;
    let (graphics, indices) = (0, QueueFamilyIndices { transfer: 1, present: 2 });
    assert_eq!(
        create_swapchain(&support, extent(800, 600), graphics, &indices),
        Ok(SwapchainConfig {
            min_image_count: 3,
            format: srgb(),
            extent: extent(1920, 1080),
            sharing_mode: SharingMode::Concurrent,
            queue_family_indices: vec![1, 0, 2],
            pre_transform: 4,
            present_mode: PRESENT_MODE_MAILBOX,
        })
    );
    let (graphics, indices) = (3, QueueFamilyIndices { transfer: 3, present: 0 });
    let config = create_swapchain(&support, extent(800, 600), graphics, &indices).unwrap();
    assert_eq!(config.sharing_mode, SharingMode::Concurrent);
    assert_eq!(config.queue_family_indices, vec![3, 3, 0]);
}

#[test]
fn swapchain_needs_a_surface_format() {
    let mut support = support();
    support.formats.clear();
    let (graphics, indices) = (0, QueueFamilyIndices { transfer: 0, present: 0 });
    assert_eq!(
        create_swapchain(&support, extent(800, 600), graphics, &indices),
        Err(SwapchainError::NoSurfaceFormat)
    );
    support.capabilities.min_image_count = u32::MAX;
    support.capabilities.max_image_count = 0;
    assert_eq!(
        create_swapchain(&support, extent(800, 600), graphics, &indices),
        Err(SwapchainError::NoSurfaceFormat)
    );
}

#[test]
fn swapchain_needs_an_area() {
    let (graphics, indices) = (0, QueueFamilyIndices { transfer: 0, present: 0 });
    let mut support = support();
    support.capabilities.current_extent = extent(0, 720);
    assert_eq!(
        create_swapchain(&support, extent(800, 600), graphics, &indices),
        Err(SwapchainError::ZeroExtent)
    );
    support.capabilities.current_extent = extent(1280, 0);
    assert_eq!(
        create_swapchain(&support, extent(800, 600), graphics, &indices),
        Err(SwapchainError::ZeroExtent)
    );
    // A window without area is brought up to the least extent of the surface.
    support.capabilities.current_extent = extent(u32::MAX, u32::MAX);
    assert_eq!(
        create_swapchain(&support, extent(0, 0), graphics, &indices).map(|c| c.extent),
        Ok(extent(100, 50))
    );
    support.capabilities.min_image_extent = extent(0, 0);
    assert_eq!(
        create_swapchain(&support, extent(0, 600), graphics, &indices),
        Err(SwapchainError::ZeroExtent)
    );
    assert_eq!(
        create_swapchain(&support, extent(800, 0), graphics, &indices),
        Err(SwapchainError::ZeroExtent)
    );
    // An extent without area is named before an uncountable image count.
    support.capabilities.min_image_count = u32::MAX;
    support.capabilities.max_image_count = 0;
    assert_eq!(
        create_swapchain(&support, extent(800, 0), graphics, &indices),
        Err(SwapchainError::ZeroExtent)
    );
}

#[test]
fn swapchain_needs_a_countable_number_of_images() {
    let mut support = support();
    support.capabilities.min_image_count = u32::MAX;
    support.capabilities.max_image_count = 0;
    let (graphics, indices) = (0, QueueFamilyIndices { transfer: 0, present: 0 });
    assert_eq!(
        create_swapchain(&support, extent(800, 600), graphics, &indices),
        Err(SwapchainError::TooManyImages)
    );
}
