use vulkan_base::base::{BootReply, BootRequest, BootStep, Bootstrap, VulkanBase};
use vulkan_base::device::{DepthCandidate, PhysicalDeviceInfo, QueueFamilyInfo};
use vulkan_base::error::Error;
use vulkan_base::resource::{Resource, ResourceKind};
use vulkan_base::surface::{Extent2D, Extent3D, SurfaceCapabilities, SurfaceFormat};
use vulkan_base::swapchain::{Context, MemImage, ResizeRequest, SwapchainState};

fn names(list: &[&str]) -> Vec<String> {
    list.iter().map(|s| s.to_string()).collect()
}

fn r(kind: ResourceKind, handle: u64) -> Resource {
    Resource {
        kind,
        index: 0,
        handle,
    }
}

fn v(major: u32, minor: u32) -> u32 {
    ash::vk::make_api_version(0, major, minor, 0)
}

fn begin() -> Bootstrap {
    VulkanBase::new(
        names(&["VK_KHR_surface", "VK_EXT_debug_utils"]),
        names(&["VK_KHR_swapchain"]),
    )
}

fn devices() -> Vec<PhysicalDeviceInfo> {
    vec![
        PhysicalDeviceInfo {
            handle: 0xd1,
            api_version: v(1, 3),
            tessellation_shader: false,
            fill_mode_non_solid: true,
            extensions: Ok(names(&["VK_KHR_swapchain"])),
        },
        PhysicalDeviceInfo {
            handle: 0xd2,
            api_version: v(1, 2),
            tessellation_shader: true,
            fill_mode_non_solid: true,
            extensions: Ok(names(&["VK_KHR_swapchain", "VK_KHR_maintenance1"])),
        },
        PhysicalDeviceInfo {
            handle: 0xd3,
            api_version: v(1, 3),
            tessellation_shader: true,
            fill_mode_non_solid: true,
            extensions: Ok(names(&["VK_KHR_swapchain"])),
        },
    ]
}

fn good_reply(request: BootRequest) -> BootReply {
    match request {
        BootRequest::QueryInstanceVersion => BootReply::InstanceVersion(Ok(Some(v(1, 3)))),
        BootRequest::QueryInstanceExtensions => BootReply::InstanceExtensions(Ok(names(&[
            "VK_KHR_display",
            "VK_EXT_debug_utils",
            "VK_KHR_surface",
        ]))),
        BootRequest::CreateInstance { .. } => BootReply::Created(0x1),
        BootRequest::CreateSurface { .. } => BootReply::Created(0x2),
        BootRequest::QueryPhysicalDevices { .. } => BootReply::PhysicalDevices(Ok(devices())),
        BootRequest::QuerySurfaceFormats { .. } => BootReply::SurfaceFormats(Ok(vec![
            SurfaceFormat {
                format: 50,
                color_space: 0,
            },
            SurfaceFormat {
                format: 44,
                color_space: 0,
            },
        ])),
        BootRequest::QueryPresentModes { .. } => BootReply::PresentModes(Ok(vec![2, 0])),
        BootRequest::QueryQueueFamilies { .. } => BootReply::QueueFamilies(vec![
            QueueFamilyInfo {
                queue_count: 1,
                queue_flags: 4,
                present_support: Ok(false),
            },
            QueueFamilyInfo {
                queue_count: 16,
                queue_flags: 7,
                present_support: Ok(true),
            },
        ]),
        BootRequest::QueryDepthFormats { .. } => BootReply::DepthFormats(vec![
            DepthCandidate {
                format: 128,
                optimal_tiling_features: 0,
            },
            DepthCandidate {
                format: 129,
                optimal_tiling_features: 0x200,
            },
            DepthCandidate {
                format: 130,
                optimal_tiling_features: 0x200,
            },
        ]),
        BootRequest::CreateDevice { .. } => BootReply::Created(0x4),
        BootRequest::GetQueue { .. } => BootReply::Queue(0x5),
        BootRequest::CreateAllocator { .. } => BootReply::Created(0x6),
    }
}

fn go(step: BootStep) -> Bootstrap {
    match step {
        BootStep::Continue(setup) => setup,
        BootStep::Finished(_) => panic!("finished too early"),
        BootStep::Failed { error, .. } => panic!("failed: {}", error.message()),
    }
}

fn failed(step: BootStep) -> (Error, Vec<Resource>) {
    match step {
        BootStep::Failed { error, destroy } => (error, destroy),
        _ => panic!("the setup should have failed"),
    }
}

/// Answers the first `stop` requests well.
fn run(stop: usize) -> Bootstrap {
    let mut setup = begin();
    for _ in 0..stop {
        let reply = good_reply(setup.request());
        setup = go(setup.advance(reply));
    }
    setup
}

fn expected_context() -> Context {
    Context {
        instance: 0x1,
        surface: 0x2,
        physical_device: 0xd2,
        api_version: v(1, 2),
        surface_format: SurfaceFormat {
            format: 44,
            color_space: 0,
        },
        present_mode: 0,
        depth_format: 129,
        queue_family: 1,
        device: 0x4,
        queue: 0x5,
        allocator: 0x6,
    }
}

#[test]
fn setup_asks_in_order() {
    let expected = vec![
        BootRequest::QueryInstanceVersion,
        BootRequest::QueryInstanceExtensions,
        BootRequest::CreateInstance {
            api_version: v(1, 2),
        },
        BootRequest::CreateSurface { instance: 0x1 },
        BootRequest::QueryPhysicalDevices { instance: 0x1 },
        BootRequest::QuerySurfaceFormats {
            physical_device: 0xd2,
            surface: 0x2,
        },
        BootRequest::QueryPresentModes {
            physical_device: 0xd2,
            surface: 0x2,
        },
        BootRequest::QueryQueueFamilies {
            physical_device: 0xd2,
            surface: 0x2,
        },
        BootRequest::QueryDepthFormats {
            physical_device: 0xd2,
        },
        BootRequest::CreateDevice {
            physical_device: 0xd2,
            queue_family: 1,
            queue_count: 1,
            tessellation_shader: true,
            fill_mode_non_solid: true,
        },
        BootRequest::GetQueue {
            device: 0x4,
            queue_family: 1,
            queue_index: 0,
        },
        BootRequest::CreateAllocator {
            instance: 0x1,
            physical_device: 0xd2,
            device: 0x4,
            buffer_device_address: false,
        },
    ];
    for (k, want) in expected.into_iter().enumerate() {
        assert_eq!(run(k).request(), want);
    }
}

#[test]
fn setup_finishes_with_the_choices_made() {
    let setup = run(11);
    match setup.advance(BootReply::Created(0x6)) {
        BootStep::Finished(base) => {
            assert_eq!(base.context, expected_context());
            assert_eq!(base.swapchain, None);
        }
        _ => panic!("the setup should have finished"),
    }
}

#[test]
fn setup_keeps_the_required_extensions() {
    let setup = run(5);
    assert_eq!(
        setup.required_instance_extensions(),
        &names(&["VK_KHR_surface", "VK_EXT_debug_utils"])
    );
    assert_eq!(
        setup.required_device_extensions(),
        &names(&["VK_KHR_swapchain"])
    );
}

#[test]
fn failed_negotiation_keeps_nothing() {
    let instance = r(ResourceKind::Instance, 0x1);
    let surface = r(ResourceKind::Surface, 0x2);
    let device = r(ResourceKind::Device, 0x4);
    let cases: Vec<(usize, BootReply, Error, Vec<Resource>)> = vec![
        (
            0,
            BootReply::InstanceVersion(Err(-1)),
            Error::EnumerateInstanceVersion,
            vec![],
        ),
        (
            0,
            BootReply::InstanceVersion(Ok(Some(v(1, 1)))),
            Error::InstanceVersionTooLow,
            vec![],
        ),
        (
            1,
            BootReply::InstanceExtensions(Ok(names(&["VK_KHR_surface"]))),
            Error::MissingInstanceExtension("VK_EXT_debug_utils".to_string()),
            vec![],
        ),
        (
            1,
            BootReply::InstanceExtensions(Err(-1)),
            Error::EnumerateInstanceExtensions,
            vec![],
        ),
        (
            2,
            BootReply::Failed,
            Error::Create {
                kind: ResourceKind::Instance,
                index: 0,
            },
            vec![],
        ),
        (
            3,
            BootReply::Failed,
            Error::Create {
                kind: ResourceKind::Surface,
                index: 0,
            },
            vec![instance],
        ),
        (
            4,
            BootReply::PhysicalDevices(Err(-3)),
            Error::EnumeratePhysicalDevices,
            vec![surface, instance],
        ),
        (
            4,
            BootReply::PhysicalDevices(Ok(vec![])),
            Error::NoSuitableDevice,
            vec![surface, instance],
        ),
        (
            5,
            BootReply::SurfaceFormats(Err(-1)),
            Error::SurfaceFormats,
            vec![surface, instance],
        ),
        (
            6,
            BootReply::PresentModes(Ok(vec![])),
            Error::PresentModes,
            vec![surface, instance],
        ),
        (
            7,
            BootReply::QueueFamilies(vec![]),
            Error::NoGraphicsPresentQueue,
            vec![surface, instance],
        ),
        (
            8,
            BootReply::DepthFormats(vec![]),
            Error::NoDepthFormat,
            vec![surface, instance],
        ),
        (
            9,
            BootReply::Failed,
            Error::Create {
                kind: ResourceKind::Device,
                index: 0,
            },
            vec![surface, instance],
        ),
        (
            10,
            BootReply::Failed,
            Error::UnexpectedReply,
            vec![device, surface, instance],
        ),
        (
            11,
            BootReply::Failed,
            Error::Create {
                kind: ResourceKind::Allocator,
                index: 0,
            },
            vec![device, surface, instance],
        ),
    ];
    for (stop, reply, want_error, want_destroy) in cases {
        let (error, destroy) = failed(run(stop).advance(reply));
        assert_eq!(error, want_error);
        assert_eq!(destroy, want_destroy);
    }
}

#[test]
fn reply_out_of_turn_calls_the_setup_off() {
    let (error, destroy) = failed(run(0).advance(BootReply::Created(1)));
    assert_eq!(error, Error::UnexpectedReply);
    assert!(destroy.is_empty());
    let (error, destroy) = failed(run(3).advance(BootReply::Queue(1)));
    assert_eq!(error, Error::UnexpectedReply);
    assert_eq!(destroy, vec![r(ResourceKind::Instance, 0x1)]);
    let (error, _) = failed(run(5).advance(BootReply::PresentModes(Ok(vec![2]))));
    assert_eq!(error, Error::UnexpectedReply);
    let (error, _) = failed(run(0).advance(BootReply::Failed));
    assert_eq!(error, Error::UnexpectedReply);
}

#[test]
fn setup_takes_first_passing_device_in_enumeration_order() {
    let setup = run(4);
    let setup = go(setup.advance(BootReply::PhysicalDevices(Ok(devices()))));
    assert_eq!(
        setup.request(),
        BootRequest::QuerySurfaceFormats {
            physical_device: 0xd2,
            surface: 0x2
        }
    );
}

fn live_state() -> SwapchainState {
    SwapchainState {
        capabilities: SurfaceCapabilities {
            min_image_count: 2,
            max_image_count: 0,
            current_extent: Extent2D {
                width: 640,
                height: 480,
            },
            min_image_extent: Extent2D {
                width: 1,
                height: 1,
            },
            max_image_extent: Extent2D {
                width: 4096,
                height: 4096,
            },
            current_transform: 1,
        },
        extent: Extent2D {
            width: 640,
            height: 480,
        },
        swapchain: 0x100,
        images: vec![0x110, 0x111],
        image_views: vec![0x120, 0x121],
        depth_buffer: MemImage {
            image: 0x130,
            view: 0x131,
            extent: Extent3D {
                width: 640,
                height: 480,
                depth: 1,
            },
            allocation: 0x132,
        },
    }
}

#[test]
fn clean_destroys_in_reverse_order_of_construction() {
    let base = VulkanBase {
        context: expected_context(),
        swapchain: Some(live_state()),
    };
    let teardown = base.clean();
    assert!(teardown.wait_idle);
    assert_eq!(
        teardown.destroy,
        vec![
            r(ResourceKind::DepthView, 0x131),
            r(ResourceKind::DepthMemory, 0x132),
            r(ResourceKind::DepthImage, 0x130),
            Resource {
                kind: ResourceKind::SwapchainImageView,
                index: 1,
                handle: 0x121
            },
            Resource {
                kind: ResourceKind::SwapchainImageView,
                index: 0,
                handle: 0x120
            },
            r(ResourceKind::Swapchain, 0x100),
            r(ResourceKind::Allocator, 0x6),
            r(ResourceKind::Device, 0x4),
            r(ResourceKind::Surface, 0x2),
            r(ResourceKind::Instance, 0x1),
        ]
    );
}

#[test]
fn clean_before_the_first_build() {
    let base = VulkanBase {
        context: expected_context(),
        swapchain: None,
    };
    let teardown = base.clean();
    assert!(teardown.wait_idle);
    assert_eq!(
        teardown.destroy,
        vec![
            r(ResourceKind::Allocator, 0x6),
            r(ResourceKind::Device, 0x4),
            r(ResourceKind::Surface, 0x2),
            r(ResourceKind::Instance, 0x1),
        ]
    );
}

#[test]
fn resize_starts_from_the_live_state() {
    let base = VulkanBase {
        context: expected_context(),
        swapchain: Some(live_state()),
    };
    let resize = base.resize(Extent2D {
        width: 300,
        height: 200,
    });
    assert_eq!(resize.request(), ResizeRequest::WaitIdle);
}

#[test]
fn driven_setup_finishes_with_the_choices_made() {
    let mut asked = 0;
    let settled = begin().drive(|request| {
        asked += 1;
        good_reply(request)
    });
    assert_eq!(asked, 12);
    match settled {
        BootStep::Finished(base) => {
            assert_eq!(base.context, expected_context());
            assert_eq!(base.swapchain, None);
        }
        _ => panic!("the setup should have finished"),
    }
}

#[test]
fn driven_setup_stops_at_the_first_failure() {
    let mut asked = 0;
    let settled = begin().drive(|request| {
        asked += 1;
        match request {
            BootRequest::QueryPresentModes { .. } => BootReply::PresentModes(Err(-1)),
            other => good_reply(other),
        }
    });
    assert_eq!(asked, 7);
    let (error, destroy) = failed(settled);
    assert_eq!(error, Error::PresentModes);
    assert_eq!(
        destroy,
        vec![r(ResourceKind::Surface, 0x2), r(ResourceKind::Instance, 0x1)]
    );
}
