use vulkan_base::error::Error;
use vulkan_base::surface::{
    get_image_count, get_present_mode, get_surface_extent, get_surface_format, Extent2D,
    SurfaceCapabilities, SurfaceFormat,
};

fn caps(
    min_count: u32,
    max_count: u32,
    current: (u32, u32),
    min: (u32, u32),
    max: (u32, u32),
) -> SurfaceCapabilities {
    SurfaceCapabilities {
        min_image_count: min_count,
        max_image_count: max_count,
        current_extent: Extent2D {
            width: current.0,
            height: current.1,
        },
        min_image_extent: Extent2D {
            width: min.0,
            height: min.1,
        },
        max_image_extent: Extent2D {
            width: max.0,
            height: max.1,
        },
        current_transform: 1,
    }
}

fn e(width: u32, height: u32) -> Extent2D {
    Extent2D { width, height }
}

const PREFERRED: SurfaceFormat = SurfaceFormat {
    format: 44,
    color_space: 0,
};

#[test]
fn preferred_surface_format_is_taken_where_offered() {
    let formats = vec![
        SurfaceFormat {
            format: 37,
            color_space: 0,
        },
        SurfaceFormat {
            format: 50,
            color_space: 0,
        },
        PREFERRED,
    ];
    assert_eq!(get_surface_format(&Ok(formats)), Ok(PREFERRED));
}

#[test]
fn preferred_surface_format_matches_the_bindings() {
    assert_eq!(ash::vk::Format::B8G8R8A8_UNORM.as_raw(), PREFERRED.format);
    assert_eq!(
        ash::vk::ColorSpaceKHR::SRGB_NONLINEAR.as_raw(),
        PREFERRED.color_space
    );
}

#[test]
fn first_surface_format_is_the_fallback() {
    let formats = vec![
        SurfaceFormat {
            format: 37,
            color_space: 0,
        },
        SurfaceFormat {
            format: 44,
            color_space: 1_000_104_001,
        },
        SurfaceFormat {
            format: 50,
            color_space: 0,
        },
    ];
    assert_eq!(
        get_surface_format(&Ok(formats)),
        Ok(SurfaceFormat {
            format: 37,
            color_space: 0
        })
    );
}

#[test]
fn surface_format_errors() {
    assert_eq!(get_surface_format(&Err(-2)), Err(Error::SurfaceFormats));
    assert_eq!(
        get_surface_format(&Ok(Vec::new())),
        Err(Error::NoSurfaceFormat)
    );
}

#[test]
fn present_mode_prefers_mailbox_then_immediate() {
    assert_eq!(get_present_mode(&Ok(vec![2, 0, 1, 3])), Ok(1));
    assert_eq!(get_present_mode(&Ok(vec![2, 3, 0])), Ok(0));
    assert_eq!(get_present_mode(&Ok(vec![2])), Ok(2));
    assert_eq!(get_present_mode(&Ok(vec![3])), Ok(2));
    assert_eq!(get_present_mode(&Ok(vec![1])), Ok(1));
}

#[test]
fn present_modes_match_the_bindings() {
    assert_eq!(ash::vk::PresentModeKHR::IMMEDIATE.as_raw(), 0);
    assert_eq!(ash::vk::PresentModeKHR::MAILBOX.as_raw(), 1);
    assert_eq!(ash::vk::PresentModeKHR::FIFO.as_raw(), 2);
    assert_eq!(
        get_present_mode(&Ok(vec![1000111000])),
        Ok(ash::vk::PresentModeKHR::FIFO.as_raw())
    );
}

#[test]
fn present_mode_errors() {
    assert_eq!(get_present_mode(&Err(-1)), Err(Error::PresentModes));
    assert_eq!(get_present_mode(&Ok(Vec::new())), Err(Error::PresentModes));
}

#[test]
fn surface_extent_is_used_where_it_is_fixed() {
    let c = caps(2, 8, (1024, 768), (1, 1), (4096, 4096));
    assert_eq!(get_surface_extent(e(800, 600), &c), e(1024, 768));
    let odd = caps(2, 8, (5000, 9), (1, 1), (4096, 4096));
    assert_eq!(get_surface_extent(e(800, 600), &odd), e(5000, 9));
}

#[test]
fn window_size_is_clamped_where_extent_is_open() {
    let c = caps(2, 8, (u32::MAX, u32::MAX), (500, 400), (1000, 700));
    assert_eq!(get_surface_extent(e(800, 600), &c), e(800, 600));
    assert_eq!(get_surface_extent(e(400, 300), &c), e(500, 400));
    assert_eq!(get_surface_extent(e(1920, 1080), &c), e(1000, 700));
    assert_eq!(get_surface_extent(e(400, 1080), &c), e(500, 700));
    assert_eq!(get_surface_extent(e(0, 0), &c), e(500, 400));
    assert_eq!(get_surface_extent(e(500, 700), &c), e(500, 700));
}

#[test]
fn only_the_width_marks_an_open_extent() {
    let c = caps(2, 8, (640, u32::MAX), (1, 1), (100, 100));
    assert_eq!(get_surface_extent(e(800, 600), &c), e(640, u32::MAX));
    let open = caps(2, 8, (u32::MAX, 480), (1, 1), (100, 100));
    assert_eq!(get_surface_extent(e(800, 600), &open), e(100, 100));
}

#[test]
fn crossed_limits_give_the_minimum() {
    let c = caps(2, 8, (u32::MAX, 0), (900, 900), (100, 100));
    assert_eq!(get_surface_extent(e(50, 500), &c), e(900, 900));
}

#[test]
fn image_count_is_three_or_more() {
    assert_eq!(get_image_count(&caps(1, 0, (0, 0), (0, 0), (0, 0))), 3);
    assert_eq!(get_image_count(&caps(2, 8, (0, 0), (0, 0), (0, 0))), 3);
    assert_eq!(get_image_count(&caps(3, 3, (0, 0), (0, 0), (0, 0))), 3);
    assert_eq!(get_image_count(&caps(5, 0, (0, 0), (0, 0), (0, 0))), 5);
    assert_eq!(get_image_count(&caps(4, 6, (0, 0), (0, 0), (0, 0))), 4);
}

#[test]
fn image_count_respects_the_maximum() {
    assert_eq!(get_image_count(&caps(1, 2, (0, 0), (0, 0), (0, 0))), 2);
    assert_eq!(get_image_count(&caps(2, 2, (0, 0), (0, 0), (0, 0))), 2);
    assert_eq!(get_image_count(&caps(1, 1, (0, 0), (0, 0), (0, 0))), 1);
    assert_eq!(get_image_count(&caps(7, 5, (0, 0), (0, 0), (0, 0))), 5);
}
