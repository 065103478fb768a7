//! The rendering context: how it is set up, step by step, and the order in
//! which it is taken down.
//!
//! Setup alternates questions to the system with decisions of this library.
//! The library decides; its caller puts each pending request to the system
//! and hands back the reply. The first failure ends the setup: what the
//! setup created is destroyed, the latest first, and nothing is kept.

use crate::device::{
    DepthCandidate,
    PhysicalDeviceInfo,
    QueueFamilyInfo,
    depth_format_choice,
    find_suitable_device,
    get_depth_format,
    get_queue_family,
    queue_family_choice,
    selected_device,
};
use crate::error::Error;
use crate::extensions::{check_required_instance_extensions, instance_extensions_verdict};
use crate::resource::{Resource, ResourceKind};
use crate::scope::{Scope, rollback_order};
use crate::surface::{
    Extent2D,
    SurfaceFormat,
    get_present_mode,
    get_surface_format,
    present_mode_choice,
    surface_format_choice,
};
use crate::swapchain::{
    Context,
    Resize,
    ResizeModel,
    SwapchainModel,
    SwapchainState,
    live_view,
    single,
    view_resources,
};
use crate::version::{check_instance_version, instance_version_verdict, packed, requested_api_version};
use vstd::prelude::*;

verus! {

/// The position, in its family, of the one queue that a device is created
/// with.
pub const FIRST_QUEUE: u32 = 0;

/// What a context is taken down with: the device is waited for until it is
/// idle, whatever the wait gives, and then the objects are destroyed in the
/// order given.
#[derive(Debug, PartialEq, Eq)]
pub struct Teardown {
    /// Whether the device is to be waited for before the first object is
    /// destroyed.
    pub wait_idle: bool,
    pub destroy: Vec<Resource>,
}

/// The stages of a setup, in order.
#[derive(Clone, Copy, Debug, PartialEq, Eq, Structural)]
pub enum BootStage {
    InstanceVersion,
    InstanceExtensions,
    Instance,
    Surface,
    PhysicalDevice,
    SurfaceFormat,
    PresentMode,
    QueueFamily,
    DepthFormat,
    Device,
    Queue,
    Allocator,
}

/// What the caller is asked to do next.
#[derive(Clone, Copy, Debug, PartialEq, Eq, Structural)]
pub enum BootRequest {
    /// Ask the loader for the instance API version.
    QueryInstanceVersion,
    /// List the instance extensions on offer.
    QueryInstanceExtensions,
    /// Create the instance for `api_version`, with the required instance
    /// extensions.
    CreateInstance { api_version: u32 },
    /// Create the surface of the window.
    CreateSurface { instance: u64 },
    /// Enumerate the physical devices and read each one's properties,
    /// features and extensions.
    QueryPhysicalDevices { instance: u64 },
    /// List the formats of the surface.
    QuerySurfaceFormats { physical_device: u64, surface: u64 },
    /// List the present modes of the surface.
    QueryPresentModes { physical_device: u64, surface: u64 },
    /// Read the queue families, each with what asking for its presentation
    /// support gave.
    QueryQueueFamilies { physical_device: u64, surface: u64 },
    /// Read the format properties of the candidate depth formats, in their
    /// order of preference.
    QueryDepthFormats { physical_device: u64 },
    /// Create the logical device with `queue_count` queues of
    /// `queue_family`, with the required device extensions and with the
    /// features that the device was checked for.
    CreateDevice {
        physical_device: u64,
        queue_family: u32,
        queue_count: u32,
        tessellation_shader: bool,
        fill_mode_non_solid: bool,
    },
    /// Fetch the queue at position `queue_index` of the family.
    GetQueue { device: u64, queue_family: u32, queue_index: u32 },
    /// Create the memory allocator, with or without buffer device
    /// addresses.
    CreateAllocator { instance: u64, physical_device: u64, device: u64, buffer_device_address: bool },
}

/// What the caller reports back.
#[derive(Debug, PartialEq, Eq)]
pub enum BootReply {
    InstanceVersion(Result<Option<u32>, i32>),
    InstanceExtensions(Result<Vec<String>, i32>),
    PhysicalDevices(Result<Vec<PhysicalDeviceInfo>, i32>),
    SurfaceFormats(Result<Vec<SurfaceFormat>, i32>),
    PresentModes(Result<Vec<i32>, i32>),
    QueueFamilies(Vec<QueueFamilyInfo>),
    DepthFormats(Vec<DepthCandidate>),
    /// The handle of the queue.
    Queue(u64),
    /// The handle of the object that was created.
    Created(u64),
    /// The object could not be created.
    Failed,
}

/// The mathematical content of a setup in progress.
pub struct BootModel {
    pub required_instance_extensions: Seq<String>,
    pub required_device_extensions: Seq<String>,
    pub stage: BootStage,
    /// What has been created and chosen so far; the rest is zero.
    pub context: Context,
}

/// How a setup stands after a reply.
pub enum BootOutcome {
    /// The next request is pending.
    Continue(BootModel),
    /// The context is complete, and everything created is kept.
    Finished(Context),
    /// The setup is off. `destroy` lists what it had created, to be
    /// destroyed in that order.
    Failed { error: Error, destroy: Seq<Resource> },
}

/// The context of which nothing is known yet.
pub open spec fn blank_context() -> Context {
    Context {
        instance: 0,
        surface: 0,
        physical_device: 0,
        api_version: 0,
        surface_format: SurfaceFormat { format: 0, color_space: 0 },
        present_mode: 0,
        depth_format: 0,
        queue_family: 0,
        device: 0,
        queue: 0,
        allocator: 0,
    }
}

impl BootModel {
    /// The start of a setup.
    pub open spec fn start(
        required_instance_extensions: Seq<String>,
        required_device_extensions: Seq<String>,
    ) -> BootModel {
        BootModel {
            required_instance_extensions,
            required_device_extensions,
            stage: BootStage::InstanceVersion,
            context: blank_context(),
        }
    }

    /// What this setup has created so far, in the order of creation.
    pub open spec fn built(self) -> Seq<Resource> {
        let instance = single(ResourceKind::Instance, self.context.instance);
        let surface = single(ResourceKind::Surface, self.context.surface);
        let device = single(ResourceKind::Device, self.context.device);
        match self.stage {
            BootStage::InstanceVersion | BootStage::InstanceExtensions | BootStage::Instance => {
                Seq::empty()
            },
            BootStage::Surface => seq![instance],
            BootStage::PhysicalDevice
            | BootStage::SurfaceFormat
            | BootStage::PresentMode
            | BootStage::QueueFamily
            | BootStage::DepthFormat
            | BootStage::Device => seq![instance, surface],
            BootStage::Queue | BootStage::Allocator => seq![instance, surface, device],
        }
    }

    /// The request that is pending.
    pub open spec fn request(self) -> BootRequest {
        let c = self.context;
        match self.stage {
            BootStage::InstanceVersion => BootRequest::QueryInstanceVersion,
            BootStage::InstanceExtensions => BootRequest::QueryInstanceExtensions,
            BootStage::Instance => BootRequest::CreateInstance { api_version: packed(0, 1, 2, 0) },
            BootStage::Surface => BootRequest::CreateSurface { instance: c.instance },
            BootStage::PhysicalDevice => BootRequest::QueryPhysicalDevices { instance: c.instance },
            BootStage::SurfaceFormat => BootRequest::QuerySurfaceFormats {
                physical_device: c.physical_device,
                surface: c.surface,
            },
            BootStage::PresentMode => BootRequest::QueryPresentModes {
                physical_device: c.physical_device,
                surface: c.surface,
            },
            BootStage::QueueFamily => BootRequest::QueryQueueFamilies {
                physical_device: c.physical_device,
                surface: c.surface,
            },
            BootStage::DepthFormat => BootRequest::QueryDepthFormats {
                physical_device: c.physical_device,
            },
            BootStage::Device => BootRequest::CreateDevice {
                physical_device: c.physical_device,
                queue_family: c.queue_family,
                queue_count: 1,
                tessellation_shader: true,
                fill_mode_non_solid: true,
            },
            BootStage::Queue => BootRequest::GetQueue {
                device: c.device,
                queue_family: c.queue_family,
                queue_index: FIRST_QUEUE,
            },
            BootStage::Allocator => BootRequest::CreateAllocator {
                instance: c.instance,
                physical_device: c.physical_device,
                device: c.device,
                buffer_device_address: false,
            },
        }
    }

    /// The setup called off: what it created is destroyed, the latest
    /// first.
    pub open spec fn fail(self, error: Error) -> BootOutcome {
        BootOutcome::Failed { error, destroy: rollback_order(self.built()) }
    }

    /// The setup at its next stage, with more of the context known.
    pub open spec fn proceed(self, stage: BootStage, context: Context) -> BootOutcome {
        BootOutcome::Continue(BootModel { stage, context, ..self })
    }

    /// The object that the pending request creates, if it creates one.
    pub open spec fn creates(self) -> Option<ResourceKind> {
        match self.stage {
            BootStage::Instance => Some(ResourceKind::Instance),
            BootStage::Surface => Some(ResourceKind::Surface),
            BootStage::Device => Some(ResourceKind::Device),
            BootStage::Allocator => Some(ResourceKind::Allocator),
            _ => None,
        }
    }

    /// The protocol: how the setup stands after `reply` to the pending
    /// request.
    pub open spec fn next(self, reply: BootReply) -> BootOutcome {
        let c = self.context;
        match (self.stage, reply) {
            (BootStage::InstanceVersion, BootReply::InstanceVersion(report)) => {
                match instance_version_verdict(report) {
                    Ok(_) => self.proceed(BootStage::InstanceExtensions, c),
                    Err(error) => self.fail(error),
                }
            },
            (BootStage::InstanceExtensions, BootReply::InstanceExtensions(offered)) => {
                match instance_extensions_verdict(offered, self.required_instance_extensions) {
                    Ok(_) => self.proceed(BootStage::Instance, c),
                    Err(error) => self.fail(error),
                }
            },
            (BootStage::Instance, BootReply::Created(handle)) => self.proceed(
                BootStage::Surface,
                Context { instance: handle, ..c },
            ),
            (BootStage::Surface, BootReply::Created(handle)) => self.proceed(
                BootStage::PhysicalDevice,
                Context { surface: handle, ..c },
            ),
            (BootStage::PhysicalDevice, BootReply::PhysicalDevices(devices)) => match devices {
                Err(_) => self.fail(Error::EnumeratePhysicalDevices),
                Ok(list) => match selected_device(list@, self.required_device_extensions) {
                    Some(i) => self.proceed(
                        BootStage::SurfaceFormat,
                        Context {
                            physical_device: list@[i].handle,
                            api_version: list@[i].api_version,
                            ..c
                        },
                    ),
                    None => self.fail(Error::NoSuitableDevice),
                },
            },
            (BootStage::SurfaceFormat, BootReply::SurfaceFormats(formats)) => {
                match surface_format_choice(formats) {
                    Ok(format) => self.proceed(
                        BootStage::PresentMode,
                        Context { surface_format: format, ..c },
                    ),
                    Err(error) => self.fail(error),
                }
            },
            (BootStage::PresentMode, BootReply::PresentModes(modes)) => {
                match present_mode_choice(modes) {
                    Ok(mode) => self.proceed(
                        BootStage::QueueFamily,
                        Context { present_mode: mode, ..c },
                    ),
                    Err(error) => self.fail(error),
                }
            },
            (BootStage::QueueFamily, BootReply::QueueFamilies(families)) => {
                match queue_family_choice(families@) {
                    Ok(family) => self.proceed(
                        BootStage::DepthFormat,
                        Context { queue_family: family, ..c },
                    ),
                    Err(error) => self.fail(error),
                }
            },
            (BootStage::DepthFormat, BootReply::DepthFormats(candidates)) => {
                match depth_format_choice(candidates@) {
                    Ok(format) => self.proceed(
                        BootStage::Device,
                        Context { depth_format: format, ..c },
                    ),
                    Err(error) => self.fail(error),
                }
            },
            (BootStage::Device, BootReply::Created(handle)) => self.proceed(
                BootStage::Queue,
                Context { device: handle, ..c },
            ),
            (BootStage::Queue, BootReply::Queue(handle)) => self.proceed(
                BootStage::Allocator,
                Context { queue: handle, ..c },
            ),
            (BootStage::Allocator, BootReply::Created(handle)) => BootOutcome::Finished(
                Context { allocator: handle, ..c },
            ),
            (_, BootReply::Failed) => match self.creates() {
                Some(kind) => self.fail(Error::Create { kind, index: 0 }),
                None => self.fail(Error::UnexpectedReply),
            },
            _ => self.fail(Error::UnexpectedReply),
        }
    }
}

/// A setup in progress. It holds what it has created so far.
pub struct Bootstrap {
    required_instance_extensions: Vec<String>,
    required_device_extensions: Vec<String>,
    stage: BootStage,
    context: Context,
    scope: Scope,
}

impl View for Bootstrap {
    type V = BootModel;

    closed spec fn view(&self) -> BootModel {
        BootModel {
            required_instance_extensions: self.required_instance_extensions@,
            required_device_extensions: self.required_device_extensions@,
            stage: self.stage,
            context: self.context,
        }
    }
}

/// A complete context, with the swapchain once it has been built.
#[derive(Debug, PartialEq, Eq)]
pub struct VulkanBase {
    pub context: Context,
    /// The live swapchain; nothing before the first build.
    pub swapchain: Option<SwapchainState>,
}

/// How a setup stands after a reply.
pub enum BootStep {
    /// The next request is pending.
    Continue(Bootstrap),
    /// The context is complete, and everything created is kept. The
    /// swapchain is yet to be built.
    Finished(VulkanBase),
    /// The setup is off. `destroy` lists what it had created, to be
    /// destroyed in that order.
    Failed { error: Error, destroy: Vec<Resource> },
}

impl View for BootStep {
    type V = BootOutcome;

    open spec fn view(&self) -> BootOutcome {
        match *self {
            BootStep::Continue(setup) => BootOutcome::Continue(setup@),
            BootStep::Finished(base) => BootOutcome::Finished(base.context),
            BootStep::Failed { error, destroy } => BootOutcome::Failed { error, destroy: destroy@ },
        }
    }
}

/// The objects of a context in the order in which they were made:
/// instance, surface, device and allocator; then, where a swapchain was
/// built, the swapchain, its views by image, and image, memory and view of
/// the depth buffer.
pub open spec fn construction_order(context: Context, live: Option<SwapchainModel>) -> Seq<
    Resource,
> {
    let presentation = match live {
        Some(state) => seq![single(ResourceKind::Swapchain, state.swapchain)] + view_resources(
            state.image_views,
        ) + seq![
            single(ResourceKind::DepthImage, state.depth_buffer.image),
            single(ResourceKind::DepthMemory, state.depth_buffer.allocation),
            single(ResourceKind::DepthView, state.depth_buffer.view),
        ],
        None => Seq::empty(),
    };
    seq![
        single(ResourceKind::Instance, context.instance),
        single(ResourceKind::Surface, context.surface),
        single(ResourceKind::Device, context.device),
        single(ResourceKind::Allocator, context.allocator),
    ] + presentation
}

/// The order in which a context is taken down: the reverse of the order in
/// which its objects were made.
pub open spec fn teardown_order(context: Context, live: Option<SwapchainModel>) -> Seq<Resource> {
    rollback_order(construction_order(context, live))
}

impl Bootstrap {
    #[verifier::type_invariant]
    spec fn inv(&self) -> bool {
        self.scope@ == self@.built()
    }

    /// The instance extensions that the instance is created with.
    pub fn required_instance_extensions(&self) -> (names: &Vec<String>)
        ensures
            names@ == self@.required_instance_extensions,
    {
        &self.required_instance_extensions
    }

    /// The device extensions that the device is created with.
    pub fn required_device_extensions(&self) -> (names: &Vec<String>)
        ensures
            names@ == self@.required_device_extensions,
    {
        &self.required_device_extensions
    }

    /// The request that is pending.
    pub fn request(&self) -> (request: BootRequest)
        ensures
            request == self@.request(),
    {
        let c = &self.context;
        match self.stage {
            BootStage::InstanceVersion => BootRequest::QueryInstanceVersion,
            BootStage::InstanceExtensions => BootRequest::QueryInstanceExtensions,
            BootStage::Instance => BootRequest::CreateInstance {
                api_version: requested_api_version(),
            },
            BootStage::Surface => BootRequest::CreateSurface { instance: c.instance },
            BootStage::PhysicalDevice => BootRequest::QueryPhysicalDevices { instance: c.instance },
            BootStage::SurfaceFormat => BootRequest::QuerySurfaceFormats {
                physical_device: c.physical_device,
                surface: c.surface,
            },
            BootStage::PresentMode => BootRequest::QueryPresentModes {
                physical_device: c.physical_device,
                surface: c.surface,
            },
            BootStage::QueueFamily => BootRequest::QueryQueueFamilies {
                physical_device: c.physical_device,
                surface: c.surface,
            },
            BootStage::DepthFormat => BootRequest::QueryDepthFormats {
                physical_device: c.physical_device,
            },
            BootStage::Device => BootRequest::CreateDevice {
                physical_device: c.physical_device,
                queue_family: c.queue_family,
                queue_count: 1,
                tessellation_shader: true,
                fill_mode_non_solid: true,
            },
            BootStage::Queue => BootRequest::GetQueue {
                device: c.device,
                queue_family: c.queue_family,
                queue_index: FIRST_QUEUE,
            },
            BootStage::Allocator => BootRequest::CreateAllocator {
                instance: c.instance,
                physical_device: c.physical_device,
                device: c.device,
                buffer_device_address: false,
            },
        }
    }

    fn proceed(self, stage: BootStage, context: Context, created: Option<Resource>) -> (step:
        BootStep)
        requires
            match created {
                Some(resource) => self@.built().push(resource) == (BootModel {
                    stage,
                    context,
                    ..self@
                }).built(),
                None => self@.built() == (BootModel { stage, context, ..self@ }).built(),
            },
        ensures
            step@ == self@.proceed(stage, context),
    {
        proof {
            use_type_invariant(&self);
        }
        let Bootstrap {
            required_instance_extensions,
            required_device_extensions,
            stage: _,
            context: _,
            scope,
        } = self;
        let mut scope = scope;
        match created {
            Some(resource) => {
                scope.guard(resource);
            },
            None => {},
        }
        BootStep::Continue(
            Bootstrap { required_instance_extensions, required_device_extensions, stage, context, scope },
        )
    }

    fn fail(self, error: Error) -> (step: BootStep)
        ensures
            step@ == self@.fail(error),
    {
        proof {
            use_type_invariant(&self);
        }
        let Bootstrap {
            required_instance_extensions: _,
            required_device_extensions: _,
            stage: _,
            context: _,
            scope,
        } = self;
        BootStep::Failed { error, destroy: scope.rollback() }
    }

    /// Runs the setup to its end: puts each pending request to `answer` and
    /// takes the reply, until the setup is settled. The result is the
    /// outcome of the protocol on the replies that `answer` gave to the
    /// requests, each in its turn, so it is never a pending setup.
    pub fn drive<F: FnMut(BootRequest) -> BootReply>(self, answer: F) -> (settled: BootStep)
        requires
            forall|request: BootRequest| call_requires(answer, (request,)),
        ensures
            !(settled@ is Continue),
            exists|replies: Seq<BootReply>|
                settled@ == run(self@, replies) && answered_by(answer, self@, replies),
            settled matches BootStep::Finished(base) ==> base.swapchain is None,
    {
        let ghost start = self@;
        let ghost replies: Seq<BootReply> = Seq::empty();
        let mut setup = self;
        let mut asked = answer;
        loop
            invariant
                asked == answer,
                forall|request: BootRequest| call_requires(answer, (request,)),
                start == self@,
                run(start, replies) == BootOutcome::Continue(setup@),
                answered_by(answer, start, replies),
            decreases stages_ahead(setup@.stage),
        {
            let ghost before = replies;
            let request = setup.request();
            let reply = asked(request);
            proof {
                replies = before.push(reply);
                assert(replies.drop_last() =~= before);
                assert(replies.take(before.len() as int) =~= before);
                assert forall|i: int| 0 <= i < replies.len() implies asked_then_answered(
                    answer,
                    start,
                    replies,
                    i,
                ) by {
                    if i < before.len() {
                        assert(asked_then_answered(answer, start, before, i));
                        assert(replies.take(i) =~= before.take(i));
                    }
                }
            }
            match setup.advance(reply) {
                BootStep::Continue(next) => {
                    setup = next;
                },
                settled => {
                    return settled;
                },
            }
        }
    }

    /// Takes the reply to the pending request and says how the setup
    /// stands: the next request, the complete context, or the failure with
    /// the objects to destroy.
    pub fn advance(self, reply: BootReply) -> (step: BootStep)
        ensures
            step@ == self@.next(reply),
            step matches BootStep::Finished(base) ==> base.swapchain is None,
    {
        proof {
            use_type_invariant(&self);
        }
        let c = self.context;
        match (self.stage, reply) {
            (BootStage::InstanceVersion, BootReply::InstanceVersion(report)) => {
                match check_instance_version(&report) {
                    Ok(_) => self.proceed(BootStage::InstanceExtensions, c, None),
                    Err(error) => self.fail(error),
                }
            },
            (BootStage::InstanceExtensions, BootReply::InstanceExtensions(offered)) => {
                match check_required_instance_extensions(
                    &offered,
                    &self.required_instance_extensions,
                ) {
                    Ok(_) => self.proceed(BootStage::Instance, c, None),
                    Err(error) => self.fail(error),
                }
            },
            (BootStage::Instance, BootReply::Created(handle)) => {
                let created = Resource { kind: ResourceKind::Instance, index: 0, handle };
                assert(Seq::<Resource>::empty().push(created) =~= seq![created]);
                self.proceed(BootStage::Surface, Context { instance: handle, ..c }, Some(created))
            },
            (BootStage::Surface, BootReply::Created(handle)) => {
                let created = Resource { kind: ResourceKind::Surface, index: 0, handle };
                assert(seq![single(ResourceKind::Instance, c.instance)].push(created) =~= seq![
                    single(ResourceKind::Instance, c.instance),
                    created,
                ]);
                self.proceed(
                    BootStage::PhysicalDevice,
                    Context { surface: handle, ..c },
                    Some(created),
                )
            },
            (BootStage::PhysicalDevice, BootReply::PhysicalDevices(devices)) => match devices {
                Err(_) => self.fail(Error::EnumeratePhysicalDevices),
                Ok(list) => match find_suitable_device(&list, &self.required_device_extensions) {
                    Some(i) => {
                        let context = Context {
                            physical_device: list[i].handle,
                            api_version: list[i].api_version,
                            ..c
                        };
                        self.proceed(BootStage::SurfaceFormat, context, None)
                    },
                    None => self.fail(Error::NoSuitableDevice),
                },
            },
            (BootStage::SurfaceFormat, BootReply::SurfaceFormats(formats)) => {
                match get_surface_format(&formats) {
                    Ok(format) => self.proceed(
                        BootStage::PresentMode,
                        Context { surface_format: format, ..c },
                        None,
                    ),
                    Err(error) => self.fail(error),
                }
            },
            (BootStage::PresentMode, BootReply::PresentModes(modes)) => {
                match get_present_mode(&modes) {
                    Ok(mode) => self.proceed(
                        BootStage::QueueFamily,
                        Context { present_mode: mode, ..c },
                        None,
                    ),
                    Err(error) => self.fail(error),
                }
            },
            (BootStage::QueueFamily, BootReply::QueueFamilies(families)) => {
                match get_queue_family(&families) {
                    Ok(family) => self.proceed(
                        BootStage::DepthFormat,
                        Context { queue_family: family, ..c },
                        None,
                    ),
                    Err(error) => self.fail(error),
                }
            },
            (BootStage::DepthFormat, BootReply::DepthFormats(candidates)) => {
                match get_depth_format(&candidates) {
                    Ok(format) => self.proceed(
                        BootStage::Device,
                        Context { depth_format: format, ..c },
                        None,
                    ),
                    Err(error) => self.fail(error),
                }
            },
            (BootStage::Device, BootReply::Created(handle)) => {
                let created = Resource { kind: ResourceKind::Device, index: 0, handle };
                assert(seq![
                    single(ResourceKind::Instance, c.instance),
                    single(ResourceKind::Surface, c.surface),
                ].push(created) =~= seq![
                    single(ResourceKind::Instance, c.instance),
                    single(ResourceKind::Surface, c.surface),
                    created,
                ]);
                self.proceed(BootStage::Queue, Context { device: handle, ..c }, Some(created))
            },
            (BootStage::Queue, BootReply::Queue(handle)) => self.proceed(
                BootStage::Allocator,
                Context { queue: handle, ..c },
                None,
            ),
            (BootStage::Allocator, BootReply::Created(handle)) => BootStep::Finished(
                VulkanBase { context: Context { allocator: handle, ..c }, swapchain: None },
            ),
            (stage, BootReply::Failed) => {
                let error = match stage {
                    BootStage::Instance => Error::Create { kind: ResourceKind::Instance, index: 0 },
                    BootStage::Surface => Error::Create { kind: ResourceKind::Surface, index: 0 },
                    BootStage::Device => Error::Create { kind: ResourceKind::Device, index: 0 },
                    BootStage::Allocator => Error::Create {
                        kind: ResourceKind::Allocator,
                        index: 0,
                    },
                    _ => Error::UnexpectedReply,
                };
                self.fail(error)
            },
            _ => self.fail(Error::UnexpectedReply),
        }
    }
}

impl VulkanBase {
    /// Begins the setup of a context that needs the given instance and
    /// device extensions.
    pub fn new(
        required_instance_extensions: Vec<String>,
        required_device_extensions: Vec<String>,
    ) -> (setup: Bootstrap)
        ensures
            setup@ == BootModel::start(required_instance_extensions@, required_device_extensions@),
    {
        Bootstrap {
            required_instance_extensions,
            required_device_extensions,
            stage: BootStage::InstanceVersion,
            context: Context {
                instance: 0,
                surface: 0,
                physical_device: 0,
                api_version: 0,
                surface_format: SurfaceFormat { format: 0, color_space: 0 },
                present_mode: 0,
                depth_format: 0,
                queue_family: 0,
                device: 0,
                queue: 0,
                allocator: 0,
            },
            scope: Scope::new(),
        }
    }

    /// Begins a resize, or the first build of the swapchain, for a window
    /// of the given size in pixels. The resize takes the context with it
    /// and hands the live state back when it ends.
    pub fn resize(self, window: Extent2D) -> (resize: Resize)
        ensures
            resize@ == ResizeModel::start(self.context, window, live_view(self.swapchain)),
    {
        Resize::begin(self.context, window, self.swapchain)
    }

    /// Takes the context down: the device is to be waited for, and then
    /// everything that the context owns is to be destroyed, the object made
    /// last first.
    pub fn clean(self) -> (teardown: Teardown)
        ensures
            teardown.wait_idle,
            teardown.destroy@ == teardown_order(self.context, live_view(self.swapchain)),
    {
        let c = &self.context;
        let mut scope = Scope::new();
        scope.guard(Resource { kind: ResourceKind::Instance, index: 0, handle: c.instance });
        scope.guard(Resource { kind: ResourceKind::Surface, index: 0, handle: c.surface });
        scope.guard(Resource { kind: ResourceKind::Device, index: 0, handle: c.device });
        scope.guard(Resource { kind: ResourceKind::Allocator, index: 0, handle: c.allocator });
        match &self.swapchain {
            Some(state) => {
                scope.guard(
                    Resource { kind: ResourceKind::Swapchain, index: 0, handle: state.swapchain },
                );
                let ghost head = scope@;
                let mut i: usize = 0;
                while i < state.image_views.len()
                    invariant
                        i <= state.image_views@.len(),
                        scope@ =~= head + view_resources(state.image_views@.take(i as int)),
                    decreases state.image_views.len() - i,
                {
                    scope.guard(
                        Resource {
                            kind: ResourceKind::SwapchainImageView,
                            index: i,
                            handle: state.image_views[i],
                        },
                    );
                    i += 1;
                }
                assert(state.image_views@.take(i as int) =~= state.image_views@);
                scope.guard(
                    Resource {
                        kind: ResourceKind::DepthImage,
                        index: 0,
                        handle: state.depth_buffer.image,
                    },
                );
                scope.guard(
                    Resource {
                        kind: ResourceKind::DepthMemory,
                        index: 0,
                        handle: state.depth_buffer.allocation,
                    },
                );
                scope.guard(
                    Resource {
                        kind: ResourceKind::DepthView,
                        index: 0,
                        handle: state.depth_buffer.view,
                    },
                );
            },
            None => {},
        }
        assert(scope@ =~= construction_order(self.context, live_view(self.swapchain)));
        Teardown { wait_idle: true, destroy: scope.rollback() }
    }
}

/// The outcome of a setup that gets `replies`, one per request, for as long
/// as requests are pending. Replies left over once the setup is settled are
/// not read.
pub open spec fn run(setup: BootModel, replies: Seq<BootReply>) -> BootOutcome
    decreases replies.len(),
{
    if replies.len() == 0 {
        BootOutcome::Continue(setup)
    } else {
        match run(setup, replies.drop_last()) {
            BootOutcome::Continue(next) => next.next(replies.last()),
            settled => settled,
        }
    }
}

/// Whether the `i`-th of `replies` is what `answer` gave to the request
/// that was pending after the replies before it.
pub open spec fn asked_then_answered<F: FnMut(BootRequest) -> BootReply>(
    answer: F,
    setup: BootModel,
    replies: Seq<BootReply>,
    i: int,
) -> bool {
    match run(setup, replies.take(i)) {
        BootOutcome::Continue(asking) => call_ensures(answer, (asking.request(),), replies[i]),
        _ => false,
    }
}

/// Whether each of `replies` is what `answer` gave to the request that was
/// pending at its turn.
pub open spec fn answered_by<F: FnMut(BootRequest) -> BootReply>(
    answer: F,
    setup: BootModel,
    replies: Seq<BootReply>,
) -> bool {
    forall|i: int|
        0 <= i < replies.len() ==> #[trigger] asked_then_answered(answer, setup, replies, i)
}

/// The number of stages that lie ahead of a stage.
pub open spec fn stages_ahead(stage: BootStage) -> nat {
    match stage {
        BootStage::InstanceVersion => 11,
        BootStage::InstanceExtensions => 10,
        BootStage::Instance => 9,
        BootStage::Surface => 8,
        BootStage::PhysicalDevice => 7,
        BootStage::SurfaceFormat => 6,
        BootStage::PresentMode => 5,
        BootStage::QueueFamily => 4,
        BootStage::DepthFormat => 3,
        BootStage::Device => 2,
        BootStage::Queue => 1,
        BootStage::Allocator => 0,
    }
}

/// What a setup has created at any stage is an initial part of instance,
/// surface and device, in this order.
pub proof fn built_in_order(setup: BootModel)
    ensures
        setup.built().is_prefix_of(
            seq![
                single(ResourceKind::Instance, setup.context.instance),
                single(ResourceKind::Surface, setup.context.surface),
                single(ResourceKind::Device, setup.context.device),
            ],
        ),
{
}

/// One step of a setup. A step that stays in the setup keeps the required
/// extensions and everything created before, and adds at most the object
/// that the reply reports. A step that fails keeps nothing: everything
/// created before is handed out for destruction, the latest first. The step
/// that finishes destroys nothing and hands out the context with the
/// allocator that the reply reports.
pub proof fn step_law(setup: BootModel, reply: BootReply)
    ensures
        match setup.next(reply) {
            BootOutcome::Continue(next) => {
                &&& next.required_instance_extensions == setup.required_instance_extensions
                &&& next.required_device_extensions == setup.required_device_extensions
                &&& setup.built().is_prefix_of(next.built())
                &&& next.built().len() <= setup.built().len() + 1
                &&& next.built().len() == setup.built().len() + 1 ==> reply is Created
                    && next.built().last().handle == reply->Created_0
            },
            BootOutcome::Finished(context) => {
                &&& setup.stage == BootStage::Allocator
                &&& reply is Created
                &&& context == (Context { allocator: reply->Created_0, ..setup.context })
            },
            BootOutcome::Failed { error, destroy } => destroy == rollback_order(setup.built()),
        },
{
}

/// A setup that fails, at whatever request, names for destruction exactly
/// what it had created, the latest first: the device (if it got that far),
/// then the surface, then the instance. A setup that goes on keeps the
/// required extensions and everything created before.
pub proof fn failure_unwinds_in_reverse(setup: BootModel, replies: Seq<BootReply>)
    ensures
        match run(setup, replies) {
            BootOutcome::Continue(next) => {
                &&& next.required_instance_extensions == setup.required_instance_extensions
                &&& next.required_device_extensions == setup.required_device_extensions
                &&& setup.built().is_prefix_of(next.built())
            },
            BootOutcome::Finished(_) => true,
            BootOutcome::Failed { destroy, .. } => exists|at: BootModel|
                {
                    &&& destroy == rollback_order(#[trigger] at.built())
                    &&& at.required_instance_extensions == setup.required_instance_extensions
                    &&& at.required_device_extensions == setup.required_device_extensions
                    &&& setup.built().is_prefix_of(at.built())
                },
        },
    decreases replies.len(),
{
    if replies.len() > 0 {
        failure_unwinds_in_reverse(setup, replies.drop_last());
        match run(setup, replies.drop_last()) {
            BootOutcome::Continue(next) => {
                step_law(next, replies.last());
                match next.next(replies.last()) {
                    BootOutcome::Failed { destroy, .. } => {
                        assert(destroy == rollback_order(next.built()));
                    },
                    _ => {},
                }
            },
            _ => {},
        }
    }
}

/// A setup that fails before the instance exists destroys nothing.
pub proof fn early_failure_destroys_nothing(setup: BootModel, reply: BootReply)
    requires
        setup.stage == BootStage::InstanceVersion || setup.stage == BootStage::InstanceExtensions
            || setup.stage == BootStage::Instance,
    ensures
        match setup.next(reply) {
            BootOutcome::Failed { destroy, .. } => destroy == Seq::<Resource>::empty(),
            _ => true,
        },
{
    assert(rollback_order(Seq::<Resource>::empty()) =~= Seq::<Resource>::empty());
}

/// The setup goes on with the first device of the enumeration that passes
/// every check, and fails where none does.
pub proof fn setup_takes_first_suitable_device(setup: BootModel, list: Vec<PhysicalDeviceInfo>)
    requires
        setup.stage == BootStage::PhysicalDevice,
    ensures
        match selected_device(list@, setup.required_device_extensions) {
            Some(i) => match setup.next(BootReply::PhysicalDevices(Ok(list))) {
                BootOutcome::Continue(next) => next.context.physical_device == list@[i].handle
                    && next.stage == BootStage::SurfaceFormat,
                _ => false,
            },
            None => match setup.next(BootReply::PhysicalDevices(Ok(list))) {
                BootOutcome::Failed { error, .. } => error == Error::NoSuitableDevice,
                _ => false,
            },
        },
{
}

/// Teardown undoes setup: what a setup has created at any stage are the
/// first objects of the context's construction order, so teardown destroys
/// them last, in the reverse of the order in which the setup created them.
pub proof fn teardown_reverses_setup(setup: BootModel)
    ensures
        setup.built().is_prefix_of(construction_order(setup.context, None)),
        teardown_order(setup.context, None) == seq![
            single(ResourceKind::Allocator, setup.context.allocator),
            single(ResourceKind::Device, setup.context.device),
            single(ResourceKind::Surface, setup.context.surface),
            single(ResourceKind::Instance, setup.context.instance),
        ],
{
    assert(teardown_order(setup.context, None) =~= seq![
        single(ResourceKind::Allocator, setup.context.allocator),
        single(ResourceKind::Device, setup.context.device),
        single(ResourceKind::Surface, setup.context.surface),
        single(ResourceKind::Instance, setup.context.instance),
    ]);
}

/// Teardown undoes a resize: the objects of a state that a resize made live
/// follow the objects of the context in the construction order, in the
/// order in which the resize built them, and so are destroyed before them.
pub proof fn teardown_reverses_resize(resize: ResizeModel, depth_view: u64)
    requires
        resize.stage == crate::swapchain::ResizeStage::DepthView,
    ensures
        construction_order(resize.context, Some(resize.finished_state(depth_view)))
            == construction_order(resize.context, None) + resize.built().push(
            single(ResourceKind::DepthView, depth_view),
        ),
{
    assert(construction_order(resize.context, Some(resize.finished_state(depth_view)))
        =~= construction_order(resize.context, None) + resize.built().push(
        single(ResourceKind::DepthView, depth_view),
    ));
}

} // verus!
