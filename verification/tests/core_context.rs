use vulkan_base::core_context::{
    find_usable_family, Access, Core, DeviceQueues, ImageBarrier, QueueRequest, PIPELINE_DEPTH,
};
use vulkan_base::device::QueueFamilyInfo;
use vulkan_base::error::Error;
use vulkan_base::resource::{Resource, ResourceKind};
use vulkan_base::submit::DeferredSubmit;
use vulkan_base::transaction::{Outcome, Progress};

fn family(flags: u32, present: Result<bool, i32>) -> QueueFamilyInfo {
    QueueFamilyInfo {
        queue_count: 1,
        queue_flags: flags,
        present_support: present,
    }
}

fn r(kind: ResourceKind, handle: u64) -> Resource {
    Resource {
        kind,
        index: 0,
        handle,
    }
}

fn made(core: Result<Core, Vec<Resource>>) -> Core {
    match core {
        Ok(core) => core,
        Err(_) => panic!("the context should be complete"),
    }
}

fn committed() -> Vec<Resource> {
    vec![
        r(ResourceKind::Instance, 1),
        r(ResourceKind::Surface, 2),
        r(ResourceKind::Device, 3),
    ]
}

#[test]
fn usable_family_draws_and_presents() {
    assert_eq!(
        find_usable_family(&vec![
            family(2, Ok(true)),
            family(1, Ok(false)),
            family(1, Err(-1)),
            family(3, Ok(true)),
            family(1, Ok(true)),
        ]),
        Some(3)
    );
    assert_eq!(find_usable_family(&vec![family(1, Err(-1))]), None);
    assert_eq!(find_usable_family(&Vec::new()), None);
}

#[test]
fn queue_count_is_not_asked_for() {
    let empty = QueueFamilyInfo {
        queue_count: 0,
        queue_flags: 1,
        present_support: Ok(true),
    };
    assert_eq!(find_usable_family(&vec![empty]), Some(0));
}

#[test]
fn first_device_with_a_usable_family() {
    let devices = vec![
        DeviceQueues {
            handle: 0xa,
            families: vec![family(2, Ok(true)), family(1, Ok(false))],
        },
        DeviceQueues {
            handle: 0xb,
            families: vec![family(4, Ok(true)), family(1, Ok(true))],
        },
        DeviceQueues {
            handle: 0xc,
            families: vec![family(1, Ok(true))],
        },
    ];
    assert_eq!(Core::select(&devices), Ok((0xb, 1)));
}

#[test]
fn no_device_with_a_usable_family() {
    let devices = vec![DeviceQueues {
        handle: 0xa,
        families: vec![family(2, Ok(true))],
    }];
    assert_eq!(Core::select(&devices), Err(Error::NoSuitableDevice));
    assert_eq!(Core::select(&Vec::new()), Err(Error::NoSuitableDevice));
}

#[test]
fn failed_selection_destroys_surface_then_instance() {
    let mut asked = Vec::new();
    let settled = Core::setup().carry_out(|transaction| {
        let kind = transaction.pending().kind;
        asked.push(kind);
        match kind {
            ResourceKind::DeviceSelection => Outcome::Failed,
            _ => Outcome::Succeeded(asked.len() as u64),
        }
    });
    assert_eq!(asked.len(), 3);
    match settled {
        Progress::RolledBack { error, destroy } => {
            assert_eq!(error.message(), "failed to find suitable device");
            assert_eq!(
                destroy,
                vec![r(ResourceKind::Surface, 2), r(ResourceKind::Instance, 1)]
            );
        }
        _ => panic!("a failure rolls back"),
    }
}

#[test]
fn core_is_made_of_instance_surface_device() {
    let mut progress = Core::setup();
    let mut kinds = Vec::new();
    let mut handle = 1;
    let kept = loop {
        match progress {
            Progress::Pending(t) => {
                kinds.push(t.pending().kind);
                progress = t.advance(Outcome::Succeeded(handle));
                handle += 1;
            }
            Progress::Committed(kept) => break kept,
            Progress::RolledBack { .. } => panic!("rolled back"),
        }
    };
    assert_eq!(
        kinds,
        vec![
            ResourceKind::Instance,
            ResourceKind::Surface,
            ResourceKind::DeviceSelection,
            ResourceKind::Device
        ]
    );
    assert_eq!(
        kept,
        vec![
            r(ResourceKind::Instance, 1),
            r(ResourceKind::Surface, 2),
            r(ResourceKind::Device, 4),
        ]
    );
}

#[test]
fn new_core_has_an_empty_queue_and_three_frames() {
    let mut core = made(Core::new(&committed(), 0xd, 2, 0xe));
    assert_eq!(core.device(), 3);
    assert_eq!(core.graphics_queue(), 0xe);
    assert_eq!(core.graphics_queue_family_index(), 2);
    assert_eq!(core.pipeline_depth(), 3);
    assert_eq!(PIPELINE_DEPTH, 3);
    assert_eq!(core.deferred_submits().len(), 0);
}

#[test]
fn core_needs_all_three_objects() {
    let missing = vec![r(ResourceKind::Instance, 1), r(ResourceKind::Device, 3)];
    match Core::new(&missing, 0, 0, 0) {
        Err(destroy) => assert_eq!(
            destroy,
            vec![r(ResourceKind::Device, 3), r(ResourceKind::Instance, 1)]
        ),
        Ok(_) => panic!("the surface is missing"),
    }
    assert!(Core::new(&Vec::new(), 0, 0, 0).is_err());
}

#[test]
fn core_hands_command_buffers_to_the_queue_in_order() {
    let mut core = made(Core::new(&committed(), 0xd, 0, 0xe));
    assert!(core.deferred_submit(0x100));
    assert!(core.deferred_submit(0x101));
    assert_eq!(
        core.deferred_submits().drain(),
        vec![
            DeferredSubmit { cmd: 0x100 },
            DeferredSubmit { cmd: 0x101 }
        ]
    );
}

#[test]
fn core_never_drops_a_command_buffer() {
    let mut core = made(Core::new(&committed(), 0xd, 0, 0xe));
    for cmd in 0..16u64 {
        assert!(core.deferred_submit(cmd));
    }
    assert!(!core.deferred_submit(16));
    assert_eq!(core.deferred_submits().len(), 16);
    assert_eq!(
        core.deferred_submits().take(),
        Some(DeferredSubmit { cmd: 0 })
    );
    assert!(core.deferred_submit(16));
    let rest = core.deferred_submits().drain();
    let expected: Vec<DeferredSubmit> = (1..=16u64).map(|cmd| DeferredSubmit { cmd }).collect();
    assert_eq!(rest, expected);
}

#[test]
fn teardown_after_idle() {
    let core = made(Core::new(&committed(), 0xd, 0, 0xe));
    assert_eq!(
        core.teardown(true),
        vec![
            r(ResourceKind::Device, 3),
            r(ResourceKind::Surface, 2),
            r(ResourceKind::Instance, 1),
        ]
    );
}

#[test]
fn teardown_without_idle_destroys_nothing() {
    let core = made(Core::new(&committed(), 0xd, 0, 0xe));
    assert_eq!(core.teardown(false), Vec::new());
}

#[test]
fn image_barrier_is_a_full_barrier_over_the_whole_image() {
    let core = made(Core::new(&committed(), 0xd, 0, 0xe));
    assert_eq!(
        core.cmd_image_barrier(0xc0, 0x1a, 0, 2, 1),
        ImageBarrier {
            cmd: 0xc0,
            image: 0x1a,
            old_layout: 0,
            new_layout: 2,
            aspect_mask: 1,
            before: Access {
                reads: false,
                writes: true
            },
            after: Access {
                reads: true,
                writes: true
            },
            all_commands: true,
            whole_image: true,
        }
    );
}

#[test]
fn graphics_queue_is_the_first_of_its_family() {
    assert_eq!(
        Core::graphics_queue_request(3),
        QueueRequest {
            queue_family_index: 3,
            queue_index: 0
        }
    );
}

#[test]
fn core_asks_for_version_1_3_and_its_features() {
    assert_eq!(Core::requested_api_version(), 0x0040_3000);
    assert_eq!(
        Core::requested_api_version(),
        ash::vk::make_api_version(0, 1, 3, 0)
    );
    let info = Core::device_info(0xd, 2);
    assert_eq!(info.physical_device, 0xd);
    assert_eq!(info.queue_family_index, 2);
    assert_eq!(info.queue_count, 1);
    assert!(info.features.dynamic_rendering);
    assert!(info.features.synchronization2);
    assert!(info.features.runtime_descriptor_array);
    assert!(info.features.descriptor_indexing);
    assert!(info.features.descriptor_binding_partially_bound);
    assert!(info.features.descriptor_binding_sampled_image_update_after_bind);
    assert!(info.features.shader_sampled_image_array_non_uniform_indexing);
    assert!(info.features.buffer_device_address);
}
