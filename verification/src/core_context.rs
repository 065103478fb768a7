//! A small context for experiments: instance, surface, one device with one
//! graphics queue, and the deferred submission queue.

use crate::bindings;
use crate::device::QueueFamilyInfo;
use crate::error::Error;
use crate::resource::{Resource, ResourceKind, handle_of, lookup, made_by};
use crate::scope::{Scope, rollback_order, unwind};
use crate::select::{first, first_is, first_is_none, first_sound, is_first, none_pass};
use crate::submit::{DEFERRED_SUBMIT_CAPACITY, DeferredSubmits, after_submit};
use crate::swapchain::single;
use crate::transaction::{Progress, Step, Transaction, made, start};
use crate::version::packed;
use vstd::prelude::*;

verus! {

/// The number of frames that are in flight at once.
pub const PIPELINE_DEPTH: u32 = 3;

/// A physical device with its queue families.
#[derive(Debug, PartialEq, Eq)]
pub struct DeviceQueues {
    /// The raw handle of the device.
    pub handle: u64,
    /// The queue families of the device, by index.
    pub families: Vec<QueueFamilyInfo>,
}

/// The test "draws and is known to present". A failed presentation query
/// counts as no support.
pub open spec fn usable() -> spec_fn(QueueFamilyInfo) -> bool {
    |family: QueueFamilyInfo|
        family.queue_flags & bindings::QUEUE_GRAPHICS == bindings::QUEUE_GRAPHICS
            && family.present_support == Ok::<bool, i32>(true)
}

/// The index of the first usable family, if there is one that an index of
/// 32 bits can name.
pub open spec fn usable_family(families: Seq<QueueFamilyInfo>) -> Option<u32> {
    match first(families, usable()) {
        Some(i) => if i <= u32::MAX {
            Some(i as u32)
        } else {
            None
        },
        None => None,
    }
}

/// The test "has a usable family".
pub open spec fn serves() -> spec_fn(DeviceQueues) -> bool {
    |device: DeviceQueues| usable_family(device.families@) is Some
}

/// The device that is selected, with its family: the first device that has
/// a usable family, and the first such family of it.
pub open spec fn device_and_family(devices: Seq<DeviceQueues>) -> Result<(u64, u32), Error> {
    match first(devices, serves()) {
        Some(i) => Ok((devices[i].handle, usable_family(devices[i].families@)->Some_0)),
        None => Err(Error::NoSuitableDevice),
    }
}

/// The plan of the context: instance, surface, the selection of the
/// physical device and its queue family, device.
pub open spec fn core_plan() -> Seq<Step> {
    seq![
        Step { kind: ResourceKind::Instance, index: 0 },
        Step { kind: ResourceKind::Surface, index: 0 },
        Step { kind: ResourceKind::DeviceSelection, index: 0 },
        Step { kind: ResourceKind::Device, index: 0 },
    ]
}

/// Which kinds of memory access a barrier orders.
#[derive(Clone, Copy, Debug, PartialEq, Eq, Structural)]
pub struct Access {
    pub reads: bool,
    pub writes: bool,
}

/// A barrier that moves an image from one layout to another.
#[derive(Clone, Copy, Debug, PartialEq, Eq, Structural)]
pub struct ImageBarrier {
    /// The command buffer that the barrier is recorded into.
    pub cmd: u64,
    pub image: u64,
    /// The raw values of the layouts.
    pub old_layout: i32,
    pub new_layout: i32,
    /// The raw aspect bits of the image that the barrier covers.
    pub aspect_mask: u32,
    /// What has to be finished before the barrier.
    pub before: Access,
    /// What has to wait for the barrier.
    pub after: Access,
    /// Whether the barrier stands between all commands before it and all
    /// commands after it, whatever their pipeline stage.
    pub all_commands: bool,
    /// Whether the barrier covers every mip level and every array layer
    /// from the first on.
    pub whole_image: bool,
}

/// The features that the device of the context is created with.
#[derive(Clone, Copy, Debug, PartialEq, Eq, Structural)]
pub struct CoreFeatures {
    pub dynamic_rendering: bool,
    pub synchronization2: bool,
    pub runtime_descriptor_array: bool,
    pub descriptor_indexing: bool,
    pub descriptor_binding_partially_bound: bool,
    pub descriptor_binding_sampled_image_update_after_bind: bool,
    pub shader_sampled_image_array_non_uniform_indexing: bool,
    pub buffer_device_address: bool,
}

/// What the device of the context is created with.
#[derive(Clone, Copy, Debug, PartialEq, Eq, Structural)]
pub struct CoreDeviceInfo {
    pub physical_device: u64,
    pub queue_family_index: u32,
    pub queue_count: u32,
    pub features: CoreFeatures,
}

/// Which queue of a device is fetched.
#[derive(Clone, Copy, Debug, PartialEq, Eq, Structural)]
pub struct QueueRequest {
    pub queue_family_index: u32,
    /// The position of the queue in its family.
    pub queue_index: u32,
}

/// What the context consists of.
pub struct CoreInner {
    pub instance: u64,
    pub pdevice: u64,
    pub device: u64,
    pub graphics_queue_family_index: u32,
    pub graphics_queue: u64,
    pub pipeline_depth: u32,
    pub deferred_submits: DeferredSubmits,
    pub surface: u64,
}

/// The context.
pub struct Core {
    inner: CoreInner,
}

/// Finds the index of the first family that draws and presents.
pub fn find_usable_family(families: &Vec<QueueFamilyInfo>) -> (found: Option<u32>)
    ensures
        found == usable_family(families@),
{
    let mut i: usize = 0;
    while i < families.len()
        invariant
            i <= families.len(),
            i <= u32::MAX + 1,
            forall|k: int| 0 <= k < i ==> !usable()(#[trigger] families@[k]),
        decreases families.len() - i,
    {
        if i > 0xffff_ffff {
            proof {
                first_sound(families@, usable());
            }
            return None;
        }
        let family = &families[i];
        let presents = match family.present_support {
            Ok(yes) => yes,
            Err(_) => false,
        };
        if bindings::has_graphics(family.queue_flags) && presents {
            proof {
                assert(is_first(families@, usable(), i as int));
                first_is(families@, usable(), i as int);
            }
            return Some(i as u32);
        }
        i += 1;
    }
    proof {
        assert(none_pass(families@, usable()));
        first_is_none(families@, usable());
    }
    None
}

impl Core {
    /// The objects of the context, in the order of creation.
    pub closed spec fn inner(&self) -> CoreInner {
        self.inner
    }

    /// Begins making the objects of the context.
    pub fn setup() -> (progress: Progress)
        ensures
            progress@ == start(core_plan()),
    {
        let mut plan: Vec<Step> = Vec::new();
        plan.push(Step { kind: ResourceKind::Instance, index: 0 });
        plan.push(Step { kind: ResourceKind::Surface, index: 0 });
        plan.push(Step { kind: ResourceKind::DeviceSelection, index: 0 });
        plan.push(Step { kind: ResourceKind::Device, index: 0 });
        assert(plan@ =~= core_plan());
        Transaction::begin(plan)
    }

    /// Selects the physical device and its queue family: the first device,
    /// in the order of enumeration, that has a family which draws and
    /// presents, and the first such family of that device.
    pub fn select(devices: &Vec<DeviceQueues>) -> (choice: Result<(u64, u32), Error>)
        ensures
            choice == device_and_family(devices@),
    {
        let mut i: usize = 0;
        while i < devices.len()
            invariant
                i <= devices.len(),
                forall|k: int| 0 <= k < i ==> !serves()(#[trigger] devices@[k]),
            decreases devices.len() - i,
        {
            match find_usable_family(&devices[i].families) {
                Some(family) => {
                    proof {
                        assert(is_first(devices@, serves(), i as int));
                        first_is(devices@, serves(), i as int);
                    }
                    return Ok((devices[i].handle, family));
                },
                None => {},
            }
            i += 1;
        }
        proof {
            assert(none_pass(devices@, serves()));
            first_is_none(devices@, serves());
        }
        Err(Error::NoSuitableDevice)
    }

    /// The packed API version 1.3.0 that the instance of the context is
    /// created for.
    pub fn requested_api_version() -> (version: u32)
        ensures
            version == packed(0, 1, 3, 0),
            version == 0x0040_3000,
    {
        let version: u32 = ash::vk::make_api_version(0, 1, 3, 0);
        assert(((0u32 << 29) | (1u32 << 22) | (3u32 << 12) | 0u32) == 0x0040_3000u32)
            by (bit_vector);
        version
    }

    /// Says what the device is created with: one queue of the family
    /// selected, and every feature that the context relies on.
    pub fn device_info(physical_device: u64, queue_family_index: u32) -> (info: CoreDeviceInfo)
        ensures
            info == (CoreDeviceInfo {
                physical_device,
                queue_family_index,
                queue_count: 1,
                features: CoreFeatures {
                    dynamic_rendering: true,
                    synchronization2: true,
                    runtime_descriptor_array: true,
                    descriptor_indexing: true,
                    descriptor_binding_partially_bound: true,
                    descriptor_binding_sampled_image_update_after_bind: true,
                    shader_sampled_image_array_non_uniform_indexing: true,
                    buffer_device_address: true,
                },
            }),
    {
        CoreDeviceInfo {
            physical_device,
            queue_family_index,
            queue_count: 1,
            features: CoreFeatures {
                dynamic_rendering: true,
                synchronization2: true,
                runtime_descriptor_array: true,
                descriptor_indexing: true,
                descriptor_binding_partially_bound: true,
                descriptor_binding_sampled_image_update_after_bind: true,
                shader_sampled_image_array_non_uniform_indexing: true,
                buffer_device_address: true,
            },
        }
    }

    /// Says which queue is the graphics queue: the first queue of the
    /// family selected.
    pub fn graphics_queue_request(queue_family_index: u32) -> (request: QueueRequest)
        ensures
            request == (QueueRequest { queue_family_index, queue_index: 0 }),
    {
        QueueRequest { queue_family_index, queue_index: 0 }
    }

    /// Puts the context together from what the transaction committed, the
    /// device and family selected and the queue fetched. The submission
    /// queue starts empty, and three frames are in flight at once. Where
    /// instance, surface or device is missing, nothing is kept: `committed`
    /// comes back as the list of what to destroy, the one made last first.
    pub fn new(
        committed: &Vec<Resource>,
        pdevice: u64,
        queue_family_index: u32,
        graphics_queue: u64,
    ) -> (core: Result<Core, Vec<Resource>>)
        ensures
            core is Ok <==> handle_of(committed@, ResourceKind::Instance, 0) is Some && handle_of(
                committed@,
                ResourceKind::Surface,
                0,
            ) is Some && handle_of(committed@, ResourceKind::Device, 0) is Some,
            core matches Err(destroy) ==> destroy@ == rollback_order(committed@),
            core matches Ok(c) ==> {
                &&& Some(c.inner().instance) == handle_of(committed@, ResourceKind::Instance, 0)
                &&& Some(c.inner().surface) == handle_of(committed@, ResourceKind::Surface, 0)
                &&& Some(c.inner().device) == handle_of(committed@, ResourceKind::Device, 0)
                &&& c.inner().pdevice == pdevice
                &&& c.inner().graphics_queue_family_index == queue_family_index
                &&& c.inner().graphics_queue == graphics_queue
                &&& c.inner().pipeline_depth == PIPELINE_DEPTH
                &&& c.inner().deferred_submits@ == Seq::<u64>::empty()
            },
    {
        let instance = lookup(committed, ResourceKind::Instance, 0);
        let surface = lookup(committed, ResourceKind::Surface, 0);
        let device = lookup(committed, ResourceKind::Device, 0);
        match (instance, surface, device) {
            (Some(instance), Some(surface), Some(device)) => Ok(
                Core {
                    inner: CoreInner {
                        instance,
                        pdevice,
                        device,
                        graphics_queue_family_index: queue_family_index,
                        graphics_queue,
                        pipeline_depth: PIPELINE_DEPTH,
                        deferred_submits: DeferredSubmits::new(),
                        surface,
                    },
                },
            ),
            _ => Err(unwind(committed)),
        }
    }

    /// The index of the queue family of the graphics queue.
    pub fn graphics_queue_family_index(&self) -> (index: u32)
        ensures
            index == self.inner().graphics_queue_family_index,
    {
        self.inner.graphics_queue_family_index
    }

    /// The raw handle of the device.
    pub fn device(&self) -> (handle: u64)
        ensures
            handle == self.inner().device,
    {
        self.inner.device
    }

    /// The raw handle of the graphics queue.
    pub fn graphics_queue(&self) -> (handle: u64)
        ensures
            handle == self.inner().graphics_queue,
    {
        self.inner.graphics_queue
    }

    /// The number of frames in flight.
    pub fn pipeline_depth(&self) -> (depth: u32)
        ensures
            depth == self.inner().pipeline_depth,
    {
        self.inner.pipeline_depth
    }

    /// The submission queue, for the consumer to drain.
    pub fn deferred_submits(&mut self) -> (queue: &mut DeferredSubmits)
        ensures
            *queue == old(self).inner().deferred_submits,
            final(self).inner() == (CoreInner {
                deferred_submits: *final(queue),
                ..old(self).inner()
            }),
    {
        &mut self.inner.deferred_submits
    }

    /// Hands a recorded command buffer to the submission queue, if the
    /// queue has room, and says whether it did. A full queue is left as it
    /// is: the producer waits for the consumer and offers again.
    pub fn deferred_submit(&mut self, cmd: u64) -> (queued: bool)
        ensures
            queued == (old(self).inner().deferred_submits@.len() < DEFERRED_SUBMIT_CAPACITY),
            final(self).inner().deferred_submits@ == after_submit(
                old(self).inner().deferred_submits@,
                cmd,
            ),
            final(self).inner().instance == old(self).inner().instance,
            final(self).inner().surface == old(self).inner().surface,
            final(self).inner().pdevice == old(self).inner().pdevice,
            final(self).inner().device == old(self).inner().device,
            final(self).inner().graphics_queue == old(self).inner().graphics_queue,
            final(self).inner().graphics_queue_family_index == old(
                self,
            ).inner().graphics_queue_family_index,
            final(self).inner().pipeline_depth == old(self).inner().pipeline_depth,
    {
        self.inner.deferred_submits.try_deferred_submit(cmd)
    }

    /// Describes the barrier that moves `image` from the layout `old` to the
    /// layout `new` in the command buffer `cmd`: every write before it, by
    /// any command, is finished and visible before any command after it
    /// reads or writes, for the whole image.
    pub fn cmd_image_barrier(&self, cmd: u64, image: u64, old: i32, new: i32, aspect: u32) -> (barrier:
        ImageBarrier)
        ensures
            barrier == (ImageBarrier {
                cmd,
                image,
                old_layout: old,
                new_layout: new,
                aspect_mask: aspect,
                before: Access { reads: false, writes: true },
                after: Access { reads: true, writes: true },
                all_commands: true,
                whole_image: true,
            }),
    {
        ImageBarrier {
            cmd,
            image,
            old_layout: old,
            new_layout: new,
            aspect_mask: aspect,
            before: Access { reads: false, writes: true },
            after: Access { reads: true, writes: true },
            all_commands: true,
            whole_image: true,
        }
    }

    /// Takes the context down. `idle` says whether waiting for the device
    /// to go idle succeeded: where it did not, nothing is destroyed; where
    /// it did, device, surface and instance are, the one made last first.
    pub fn teardown(self, idle: bool) -> (destroy: Vec<Resource>)
        ensures
            destroy@ == if idle {
                rollback_order(
                    seq![
                        single(ResourceKind::Instance, self.inner().instance),
                        single(ResourceKind::Surface, self.inner().surface),
                        single(ResourceKind::Device, self.inner().device),
                    ],
                )
            } else {
                Seq::<Resource>::empty()
            },
    {
        let mut scope = Scope::new();
        if idle {
            scope.guard(
                Resource { kind: ResourceKind::Instance, index: 0, handle: self.inner.instance },
            );
            scope.guard(
                Resource { kind: ResourceKind::Surface, index: 0, handle: self.inner.surface },
            );
            scope.guard(
                Resource { kind: ResourceKind::Device, index: 0, handle: self.inner.device },
            );
            assert(scope@ =~= seq![
                single(ResourceKind::Instance, self.inner().instance),
                single(ResourceKind::Surface, self.inner().surface),
                single(ResourceKind::Device, self.inner().device),
            ]);
            scope.rollback()
        } else {
            Vec::new()
        }
    }
}

/// What the plan of the context commits is instance, surface and device,
/// so a committed plan always gives a context.
pub proof fn committed_core_is_complete(handles: Seq<u64>)
    requires
        handles.len() == core_plan().len(),
    ensures
        made(core_plan(), handles) == seq![
            single(ResourceKind::Instance, handles[0]),
            single(ResourceKind::Surface, handles[1]),
            single(ResourceKind::Device, handles[3]),
        ],
        handle_of(made(core_plan(), handles), ResourceKind::Instance, 0) == Some(handles[0]),
        handle_of(made(core_plan(), handles), ResourceKind::Surface, 0) == Some(handles[1]),
        handle_of(made(core_plan(), handles), ResourceKind::Device, 0) == Some(handles[3]),
{
    let plan = core_plan();
    let h3 = handles.drop_last();
    let h2 = h3.drop_last();
    let h1 = h2.drop_last();
    assert(made(plan, h1.drop_last()) =~= Seq::<Resource>::empty());
    assert(made(plan, h1) =~= seq![single(ResourceKind::Instance, handles[0])]);
    assert(made(plan, h2) =~= seq![
        single(ResourceKind::Instance, handles[0]),
        single(ResourceKind::Surface, handles[1]),
    ]);
    assert(made(plan, h3) =~= made(plan, h2));
    let all = made(plan, handles);
    assert(all =~= seq![
        single(ResourceKind::Instance, handles[0]),
        single(ResourceKind::Surface, handles[1]),
        single(ResourceKind::Device, handles[3]),
    ]);
    assert(is_first(all, made_by(ResourceKind::Instance, 0), 0));
    first_is(all, made_by(ResourceKind::Instance, 0), 0);
    assert(is_first(all, made_by(ResourceKind::Surface, 0), 1));
    first_is(all, made_by(ResourceKind::Surface, 0), 1);
    assert(is_first(all, made_by(ResourceKind::Device, 0), 2));
    first_is(all, made_by(ResourceKind::Device, 0), 2);
}

} // verus!
