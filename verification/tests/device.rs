use vulkan_base::device::{
    check_device_suitability, depth_format_candidates, find_suitable_device, get_depth_format,
    get_physical_device, get_queue_family, DepthCandidate, PhysicalDeviceInfo, QueueFamilyInfo,
};
use vulkan_base::error::Error;

fn names(list: &[&str]) -> Vec<String> {
    list.iter().map(|s| s.to_string()).collect()
}

fn v(major: u32, minor: u32) -> u32 {
    ash::vk::make_api_version(0, major, minor, 0)
}

fn device(handle: u64, api: u32, tess: bool, fill: bool, ext: &[&str]) -> PhysicalDeviceInfo {
    PhysicalDeviceInfo {
        handle,
        api_version: api,
        tessellation_shader: tess,
        fill_mode_non_solid: fill,
        extensions: Ok(names(ext)),
    }
}

fn family(count: u32, flags: u32, present: Result<bool, i32>) -> QueueFamilyInfo {
    QueueFamilyInfo {
        queue_count: count,
        queue_flags: flags,
        present_support: present,
    }
}

const GRAPHICS: u32 = 1;
const COMPUTE: u32 = 2;
const TRANSFER: u32 = 4;
const DEPTH_STENCIL: u32 = 0x200;

#[test]
fn device_checks_come_in_order() {
    let required = names(&["VK_KHR_swapchain"]);
    assert_eq!(
        check_device_suitability(&device(1, v(1, 1), false, false, &[]), &required),
        Err(Error::DeviceVersionTooLow)
    );
    assert_eq!(
        check_device_suitability(&device(1, v(1, 2), false, false, &[]), &required),
        Err(Error::NoTessellationShader)
    );
    assert_eq!(
        check_device_suitability(&device(1, v(1, 2), true, false, &[]), &required),
        Err(Error::NoFillModeNonSolid)
    );
    assert_eq!(
        check_device_suitability(&device(1, v(1, 2), true, true, &[]), &required),
        Err(Error::MissingDeviceExtension("VK_KHR_swapchain".to_string()))
    );
    assert_eq!(
        check_device_suitability(
            &device(1, v(1, 2), true, true, &["VK_KHR_swapchain"]),
            &required
        ),
        Ok(())
    );
}

#[test]
fn device_with_failed_extension_listing_is_unsuitable() {
    let d = PhysicalDeviceInfo {
        handle: 9,
        api_version: v(1, 3),
        tessellation_shader: true,
        fill_mode_non_solid: true,
        extensions: Err(-3),
    };
    assert_eq!(
        check_device_suitability(&d, &Vec::new()),
        Err(Error::EnumerateDeviceExtensions)
    );
}

#[test]
fn first_passing_device_is_selected_not_the_best() {
    let required = names(&["VK_KHR_swapchain"]);
    let devices = vec![
        device(0x10, v(1, 1), true, true, &["VK_KHR_swapchain"]),
        device(0x20, v(1, 3), false, true, &["VK_KHR_swapchain"]),
        device(0x30, v(1, 2), true, true, &["VK_KHR_swapchain"]),
        device(
            0x40,
            v(1, 3),
            true,
            true,
            &["VK_KHR_swapchain", "VK_KHR_ray_tracing_pipeline"],
        ),
    ];
    assert_eq!(find_suitable_device(&devices, &required), Some(2));
    assert_eq!(get_physical_device(&Ok(devices), &required), Ok(0x30));
}

#[test]
fn first_device_wins_when_all_pass() {
    let devices = vec![
        device(7, v(1, 2), true, true, &[]),
        device(8, v(1, 3), true, true, &["more"]),
    ];
    assert_eq!(get_physical_device(&Ok(devices), &Vec::new()), Ok(7));
}

#[test]
fn no_suitable_device() {
    let required = names(&["VK_KHR_swapchain"]);
    let devices = vec![
        device(1, v(1, 0), true, true, &["VK_KHR_swapchain"]),
        device(2, v(1, 2), true, true, &[]),
    ];
    assert_eq!(find_suitable_device(&devices, &required), None);
    assert_eq!(
        get_physical_device(&Ok(devices), &required),
        Err(Error::NoSuitableDevice)
    );
    assert_eq!(
        get_physical_device(&Ok(Vec::new()), &required),
        Err(Error::NoSuitableDevice)
    );
}

#[test]
fn device_enumeration_failed() {
    assert_eq!(
        get_physical_device(&Err(-3), &Vec::new()),
        Err(Error::EnumeratePhysicalDevices)
    );
}

#[test]
fn first_graphics_family_that_presents() {
    let families = vec![
        family(1, COMPUTE | TRANSFER, Ok(true)),
        family(0, GRAPHICS, Ok(true)),
        family(4, GRAPHICS | COMPUTE, Ok(false)),
        family(2, GRAPHICS | TRANSFER, Ok(true)),
        family(8, GRAPHICS, Ok(true)),
    ];
    assert_eq!(get_queue_family(&families), Ok(3));
}

#[test]
fn graphics_bit_must_be_set() {
    let families = vec![
        family(1, COMPUTE, Ok(true)),
        family(1, TRANSFER | COMPUTE, Ok(true)),
        family(1, 0, Ok(true)),
    ];
    assert_eq!(
        get_queue_family(&families),
        Err(Error::NoGraphicsPresentQueue)
    );
    assert_eq!(get_queue_family(&vec![family(1, 0xffff_fffe, Ok(true))]), Err(Error::NoGraphicsPresentQueue));
    assert_eq!(get_queue_family(&vec![family(1, 0xffff_ffff, Ok(true))]), Ok(0));
}

#[test]
fn failed_present_query_stops_the_search() {
    let families = vec![
        family(1, COMPUTE, Err(-1)),
        family(1, GRAPHICS, Ok(false)),
        family(1, GRAPHICS, Err(-4)),
        family(1, GRAPHICS, Ok(true)),
    ];
    assert_eq!(get_queue_family(&families), Err(Error::SurfaceSupport));
}

#[test]
fn present_query_of_family_that_cannot_draw_is_not_read() {
    let families = vec![family(1, COMPUTE, Err(-1)), family(1, GRAPHICS, Ok(true))];
    assert_eq!(get_queue_family(&families), Ok(1));
}

#[test]
fn no_queue_family_at_all() {
    assert_eq!(
        get_queue_family(&Vec::new()),
        Err(Error::NoGraphicsPresentQueue)
    );
}

#[test]
fn depth_candidates_in_order_of_preference() {
    assert_eq!(depth_format_candidates(), vec![128, 129, 130]);
    assert_eq!(
        depth_format_candidates(),
        vec![
            ash::vk::Format::D16_UNORM_S8_UINT.as_raw(),
            ash::vk::Format::D24_UNORM_S8_UINT.as_raw(),
            ash::vk::Format::D32_SFLOAT_S8_UINT.as_raw(),
        ]
    );
}

#[test]
fn only_middle_depth_candidate_supported() {
    let candidates = vec![
        DepthCandidate {
            format: 128,
            optimal_tiling_features: 0x1 | 0x400,
        },
        DepthCandidate {
            format: 129,
            optimal_tiling_features: DEPTH_STENCIL | 0x1,
        },
        DepthCandidate {
            format: 130,
            optimal_tiling_features: 0xffff_fdff,
        },
    ];
    assert_eq!(get_depth_format(&candidates), Ok(129));
}

#[test]
fn first_supported_depth_candidate_wins() {
    let candidates = vec![
        DepthCandidate {
            format: 128,
            optimal_tiling_features: 0,
        },
        DepthCandidate {
            format: 129,
            optimal_tiling_features: DEPTH_STENCIL,
        },
        DepthCandidate {
            format: 130,
            optimal_tiling_features: DEPTH_STENCIL | 0xff,
        },
    ];
    assert_eq!(get_depth_format(&candidates), Ok(129));
    let all = vec![
        DepthCandidate {
            format: 128,
            optimal_tiling_features: DEPTH_STENCIL,
        },
        DepthCandidate {
            format: 130,
            optimal_tiling_features: DEPTH_STENCIL,
        },
    ];
    assert_eq!(get_depth_format(&all), Ok(128));
}

#[test]
fn no_depth_format() {
    let candidates = vec![
        DepthCandidate {
            format: 128,
            optimal_tiling_features: 0x100,
        },
        DepthCandidate {
            format: 129,
            optimal_tiling_features: 0x400,
        },
    ];
    assert_eq!(get_depth_format(&candidates), Err(Error::NoDepthFormat));
    assert_eq!(get_depth_format(&Vec::new()), Err(Error::NoDepthFormat));
}

#[test]
fn depth_stencil_bit_is_the_one_of_the_bindings() {
    let bit = ash::vk::FormatFeatureFlags::DEPTH_STENCIL_ATTACHMENT.as_raw();
    assert_eq!(bit, DEPTH_STENCIL);
    let candidates = vec![DepthCandidate {
        format: 130,
        optimal_tiling_features: bit,
    }];
    assert_eq!(get_depth_format(&candidates), Ok(130));
    assert_eq!(ash::vk::QueueFlags::GRAPHICS.as_raw(), GRAPHICS);
}
