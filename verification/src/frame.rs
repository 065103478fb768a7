//! The objects that drawing needs beyond the context: shader modules,
//! buffers, layouts, render pass, pipelines, and the series of objects that
//! exist once per frame in flight or once per swapchain image.
//!
//! Each group is made by a transaction, so that a failure leaves none of
//! its objects behind.

use crate::base::{Teardown, VulkanBase, teardown_order};
use crate::resource::{Resource, ResourceKind, handle_of, lookup, made_is_found};
use crate::scope::{Scope, rollback_order, unwind};
use crate::surface::{Extent2D, Extent3D, SurfaceFormat};
use crate::swapchain::{
    ImageViewInfo,
    MemImage,
    ResizeModel,
    ResizeStage,
    color_view,
    depth_extent,
    live_view,
    single,
    swapchain_image_view_info,
    view_resources,
};
use crate::transaction::{
    Progress,
    Step,
    Transaction,
    made,
    one_object_per_step,
    resource_of,
    series,
    series_plan,
    series_rolls_back_what_exists,
    start,
};
use vstd::prelude::*;

verus! {

/// A step outside any series.
pub open spec fn once(kind: ResourceKind) -> Step {
    Step { kind, index: 0 }
}

/// The plan of a depth buffer: image, memory, binding of the memory to the
/// image, view.
pub open spec fn depth_buffer_plan() -> Seq<Step> {
    seq![
        once(ResourceKind::DepthImage),
        once(ResourceKind::DepthMemory),
        once(ResourceKind::DepthBinding),
        once(ResourceKind::DepthView),
    ]
}

/// The plan of a buffer: the buffer, its memory, and the binding of the
/// memory to the buffer.
pub open spec fn buffer_plan() -> Seq<Step> {
    seq![
        once(ResourceKind::Buffer),
        once(ResourceKind::BufferMemory),
        once(ResourceKind::BufferBinding),
    ]
}

/// The plan of a buffer in device memory that is filled once: a staging
/// buffer that the host can write is made and filled, then the buffer
/// itself is made, then the content is copied over.
pub open spec fn staged_buffer_plan() -> Seq<Step> {
    seq![
        once(ResourceKind::StagingBuffer),
        once(ResourceKind::StagingMemory),
        once(ResourceKind::StagingBinding),
        once(ResourceKind::StagingFill),
        once(ResourceKind::Buffer),
        once(ResourceKind::BufferMemory),
        once(ResourceKind::BufferBinding),
        once(ResourceKind::Upload),
    ]
}

/// The plan of the drawing objects, with `uniform_buffers` uniform buffers:
/// the four shader modules, the three buffers that are filled once, the
/// uniform buffers, then descriptor set layout, pipeline layout, render
/// pass, and the solid pipeline before the wireframe pipeline that derives
/// from it. The two pipelines are made together, by one call that is
/// handed what `create_pipelines` says and reports both.
pub open spec fn data_plan(uniform_buffers: nat) -> Seq<Step> {
    seq![
        once(ResourceKind::VertexShader),
        once(ResourceKind::TessEvalShader),
        once(ResourceKind::TessControlShader),
        once(ResourceKind::FragmentShader),
        once(ResourceKind::ControlPointsBuffer),
        once(ResourceKind::PatchesBuffer),
        once(ResourceKind::InstancesBuffer),
    ] + series_plan(ResourceKind::UniformBuffer, uniform_buffers) + seq![
        once(ResourceKind::DescriptorSetLayout),
        once(ResourceKind::PipelineLayout),
        once(ResourceKind::RenderPass),
        once(ResourceKind::SolidPipeline),
        once(ResourceKind::WireframePipeline),
    ]
}

/// The plan of the objects that exist once per frame in flight or once
/// per swapchain image: the command pools, the descriptor pools and the
/// fences of `frames` frames, then one framebuffer for each of `views`
/// image views.
pub open spec fn frame_plan(frames: nat, views: nat) -> Seq<Step> {
    series_plan(ResourceKind::CommandPool, frames) + series_plan(
        ResourceKind::DescriptorPool,
        frames,
    ) + series_plan(ResourceKind::Fence, frames) + series_plan(ResourceKind::Framebuffer, views)
}

/// The handles of the objects of `kind` among `resources`, in order.
pub open spec fn handles_of_kind(resources: Seq<Resource>, kind: ResourceKind) -> Seq<u64>
    decreases resources.len(),
{
    if resources.len() == 0 {
        Seq::empty()
    } else if resources.last().kind == kind {
        handles_of_kind(resources.drop_last(), kind).push(resources.last().handle)
    } else {
        handles_of_kind(resources.drop_last(), kind)
    }
}

/// The objects of a series as resources, numbered in order.
pub open spec fn numbered(kind: ResourceKind, handles: Seq<u64>) -> Seq<Resource> {
    Seq::new(handles.len(), |i: int| Resource { kind, index: i as usize, handle: handles[i] })
}

/// Begins making one image view per swapchain image. The view at position
/// `i` is created with what `swapchain_image_view` says for `i`.
pub fn create_swapchain_image_views(swapchain_images: &Vec<u64>) -> (progress: Progress)
    ensures
        progress@ == start(
            series_plan(ResourceKind::SwapchainImageView, swapchain_images@.len()),
        ),
{
    Transaction::begin(series(ResourceKind::SwapchainImageView, swapchain_images.len()))
}

/// Says what the view of the swapchain image at position `index` is
/// created with: a colour view in two dimensions of that image, in the
/// format of the surface. Gives nothing where there is no such image.
pub fn swapchain_image_view(
    swapchain_images: &Vec<u64>,
    surface_format: &SurfaceFormat,
    index: usize,
) -> (info: Option<ImageViewInfo>)
    ensures
        info == if index < swapchain_images@.len() {
            Some(color_view(swapchain_images@[index as int], surface_format.format))
        } else {
            None
        },
{
    if index < swapchain_images.len() {
        Some(swapchain_image_view_info(swapchain_images[index], surface_format.format))
    } else {
        None
    }
}

/// Begins making a depth buffer. Its image, memory and view are created
/// with what `depth_image_info`, `depth_memory_info` and `depth_view_info`
/// say, and the memory is bound to the image.
pub fn create_depth_buffer() -> (progress: Progress)
    ensures
        progress@ == start(depth_buffer_plan()),
{
    let mut plan: Vec<Step> = Vec::new();
    plan.push(Step { kind: ResourceKind::DepthImage, index: 0 });
    plan.push(Step { kind: ResourceKind::DepthMemory, index: 0 });
    plan.push(Step { kind: ResourceKind::DepthBinding, index: 0 });
    plan.push(Step { kind: ResourceKind::DepthView, index: 0 });
    assert(plan@ =~= depth_buffer_plan());
    Transaction::begin(plan)
}

/// A buffer with the allocation that backs it.
#[derive(Clone, Copy, Debug, PartialEq, Eq, Structural)]
pub struct MemBuffer {
    pub buffer: u64,
    pub allocation: u64,
}

/// A buffer that has been filled through a staging buffer, and the staging
/// objects, which have served and are to be destroyed in the order given.
#[derive(Debug, PartialEq, Eq)]
pub struct Uploaded {
    pub buffer: MemBuffer,
    pub retire: Vec<Resource>,
}

/// The buffer among `resources`, if buffer and memory are both there.
pub open spec fn buffer_among(resources: Seq<Resource>) -> Option<MemBuffer> {
    match (
        handle_of(resources, ResourceKind::Buffer, 0),
        handle_of(resources, ResourceKind::BufferMemory, 0),
    ) {
        (Some(buffer), Some(allocation)) => Some(MemBuffer { buffer, allocation }),
        _ => None,
    }
}

/// The staging objects among `resources` in the order of their
/// destruction, memory before buffer, if both are there.
pub open spec fn staging_among(resources: Seq<Resource>) -> Option<Seq<Resource>> {
    match (
        handle_of(resources, ResourceKind::StagingBuffer, 0),
        handle_of(resources, ResourceKind::StagingMemory, 0),
    ) {
        (Some(buffer), Some(allocation)) => Some(
            seq![
                single(ResourceKind::StagingMemory, allocation),
                single(ResourceKind::StagingBuffer, buffer),
            ],
        ),
        _ => None,
    }
}

/// Begins making a buffer with its memory.
pub fn create_buffer() -> (progress: Progress)
    ensures
        progress@ == start(buffer_plan()),
{
    let mut plan: Vec<Step> = Vec::new();
    plan.push(Step { kind: ResourceKind::Buffer, index: 0 });
    plan.push(Step { kind: ResourceKind::BufferMemory, index: 0 });
    plan.push(Step { kind: ResourceKind::BufferBinding, index: 0 });
    assert(plan@ =~= buffer_plan());
    Transaction::begin(plan)
}

/// Begins making a buffer in device memory and filling it through a
/// staging buffer.
pub fn create_gpu_buffer_init() -> (progress: Progress)
    ensures
        progress@ == start(staged_buffer_plan()),
{
    let mut plan: Vec<Step> = Vec::new();
    plan.push(Step { kind: ResourceKind::StagingBuffer, index: 0 });
    plan.push(Step { kind: ResourceKind::StagingMemory, index: 0 });
    plan.push(Step { kind: ResourceKind::StagingBinding, index: 0 });
    plan.push(Step { kind: ResourceKind::StagingFill, index: 0 });
    plan.push(Step { kind: ResourceKind::Buffer, index: 0 });
    plan.push(Step { kind: ResourceKind::BufferMemory, index: 0 });
    plan.push(Step { kind: ResourceKind::BufferBinding, index: 0 });
    plan.push(Step { kind: ResourceKind::Upload, index: 0 });
    assert(plan@ =~= staged_buffer_plan());
    Transaction::begin(plan)
}

/// Puts a committed buffer together. Where buffer or memory is missing,
/// nothing is kept: `resources` come back as the list of what to destroy,
/// the one made last first.
pub fn mem_buffer_of(resources: &Vec<Resource>) -> (made: Result<MemBuffer, Vec<Resource>>)
    ensures
        match buffer_among(resources@) {
            Some(buffer) => made == Ok::<MemBuffer, Vec<Resource>>(buffer),
            None => made is Err && made->Err_0@ == rollback_order(resources@),
        },
{
    let buffer = lookup(resources, ResourceKind::Buffer, 0);
    let allocation = lookup(resources, ResourceKind::BufferMemory, 0);
    match (buffer, allocation) {
        (Some(buffer), Some(allocation)) => Ok(MemBuffer { buffer, allocation }),
        _ => Err(unwind(resources)),
    }
}

/// Ends a committed staged upload: the buffer is kept, and the staging
/// objects are handed out for destruction, memory before buffer. Where
/// anything is missing, nothing is kept: `resources` come back as the list
/// of what to destroy, the one made last first.
pub fn finish_upload(resources: &Vec<Resource>) -> (made: Result<Uploaded, Vec<Resource>>)
    ensures
        match (buffer_among(resources@), staging_among(resources@)) {
            (Some(buffer), Some(staging)) => made is Ok && made->Ok_0.buffer == buffer
                && made->Ok_0.retire@ == staging,
            _ => made is Err && made->Err_0@ == rollback_order(resources@),
        },
{
    let buffer = lookup(resources, ResourceKind::Buffer, 0);
    let allocation = lookup(resources, ResourceKind::BufferMemory, 0);
    let staging_buffer = lookup(resources, ResourceKind::StagingBuffer, 0);
    let staging_memory = lookup(resources, ResourceKind::StagingMemory, 0);
    match (buffer, allocation, staging_buffer, staging_memory) {
        (Some(buffer), Some(allocation), Some(staging_buffer), Some(staging_memory)) => {
            let mut retire: Vec<Resource> = Vec::new();
            retire.push(
                Resource { kind: ResourceKind::StagingMemory, index: 0, handle: staging_memory },
            );
            retire.push(
                Resource { kind: ResourceKind::StagingBuffer, index: 0, handle: staging_buffer },
            );
            assert(retire@ =~= seq![
                single(ResourceKind::StagingMemory, staging_memory),
                single(ResourceKind::StagingBuffer, staging_buffer),
            ]);
            Ok(Uploaded { buffer: MemBuffer { buffer, allocation }, retire })
        },
        _ => Err(unwind(resources)),
    }
}

/// Begins making one framebuffer per swapchain image view.
pub fn create_framebuffers(swapchain_image_views: &Vec<u64>) -> (progress: Progress)
    ensures
        progress@ == start(series_plan(ResourceKind::Framebuffer, swapchain_image_views@.len())),
{
    Transaction::begin(series(ResourceKind::Framebuffer, swapchain_image_views.len()))
}

/// Begins making `count` command pools, one per frame in flight.
pub fn create_command_pools(count: usize) -> (progress: Progress)
    ensures
        progress@ == start(series_plan(ResourceKind::CommandPool, count as nat)),
{
    Transaction::begin(series(ResourceKind::CommandPool, count))
}

/// Begins making `count` descriptor pools, one per frame in flight.
pub fn create_descriptor_pools(count: usize) -> (progress: Progress)
    ensures
        progress@ == start(series_plan(ResourceKind::DescriptorPool, count as nat)),
{
    Transaction::begin(series(ResourceKind::DescriptorPool, count))
}

/// Begins making `count` fences, one per frame in flight. The fences are
/// created signalled, so that the first frame does not wait for a fence
/// that nothing will ever signal.
pub fn create_fences(count: usize) -> (progress: Progress)
    ensures
        progress@ == start(series_plan(ResourceKind::Fence, count as nat)),
{
    Transaction::begin(series(ResourceKind::Fence, count))
}

/// Begins making everything that exists once per frame in flight or once
/// per swapchain image, as one group: should any of it fail, none of it is
/// kept.
pub fn create_frame_objects(frames: usize, swapchain_image_views: &Vec<u64>) -> (progress: Progress)
    ensures
        progress@ == start(frame_plan(frames as nat, swapchain_image_views@.len())),
{
    let mut plan = series(ResourceKind::CommandPool, frames);
    let mut descriptor_pools = series(ResourceKind::DescriptorPool, frames);
    let mut fences = series(ResourceKind::Fence, frames);
    let mut framebuffers = series(ResourceKind::Framebuffer, swapchain_image_views.len());
    plan.append(&mut descriptor_pools);
    plan.append(&mut fences);
    plan.append(&mut framebuffers);
    Transaction::begin(plan)
}

/// Takes a group of objects down that one transaction made: the device is
/// to be waited for, and then the objects are to be destroyed, the one
/// made last first.
pub fn take_down(made: &Vec<Resource>) -> (teardown: Teardown)
    ensures
        teardown.wait_idle,
        teardown.destroy@ == rollback_order(made@),
{
    Teardown { wait_idle: true, destroy: unwind(made) }
}

/// Picks the handles of the objects of `kind` out of `resources`, in order.
pub fn handles_of(resources: &Vec<Resource>, kind: ResourceKind) -> (handles: Vec<u64>)
    ensures
        handles@ == handles_of_kind(resources@, kind),
{
    let mut handles: Vec<u64> = Vec::new();
    let mut i: usize = 0;
    assert(resources@.take(0) =~= Seq::<Resource>::empty());
    while i < resources.len()
        invariant
            i <= resources.len(),
            handles@ == handles_of_kind(resources@.take(i as int), kind),
        decreases resources.len() - i,
    {
        assert(resources@.take(i + 1).drop_last() =~= resources@.take(i as int));
        if resources[i].kind == kind {
            handles.push(resources[i].handle);
        }
        i += 1;
    }
    assert(resources@.take(i as int) =~= resources@);
    handles
}

/// The depth buffer among `resources`, if image, memory and view are all
/// there. `extent` is the extent of the swapchain that it belongs to.
pub open spec fn depth_buffer_among(resources: Seq<Resource>, extent: Extent2D) -> Option<MemImage> {
    match (
        handle_of(resources, ResourceKind::DepthImage, 0),
        handle_of(resources, ResourceKind::DepthMemory, 0),
        handle_of(resources, ResourceKind::DepthView, 0),
    ) {
        (Some(image), Some(allocation), Some(view)) => Some(
            MemImage { image, view, extent: depth_extent(extent), allocation },
        ),
        _ => None,
    }
}

/// Puts a committed depth buffer together. `extent` is the extent of the
/// swapchain that it belongs to. Where image, memory or view is missing,
/// nothing is kept: `resources` come back as the list of what to destroy,
/// the one made last first.
pub fn depth_buffer_of(resources: &Vec<Resource>, extent: Extent2D) -> (made: Result<
    MemImage,
    Vec<Resource>,
>)
    ensures
        match depth_buffer_among(resources@, extent) {
            Some(buffer) => made == Ok::<MemImage, Vec<Resource>>(buffer),
            None => made is Err && made->Err_0@ == rollback_order(resources@),
        },
{
    let image = lookup(resources, ResourceKind::DepthImage, 0);
    let allocation = lookup(resources, ResourceKind::DepthMemory, 0);
    let view = lookup(resources, ResourceKind::DepthView, 0);
    match (image, allocation, view) {
        (Some(image), Some(allocation), Some(view)) => Ok(
            MemImage {
                image,
                view,
                extent: Extent3D { width: extent.width, height: extent.height, depth: 1 },
                allocation,
            },
        ),
        _ => Err(unwind(resources)),
    }
}

/// The drawing objects.
#[derive(Debug, PartialEq, Eq)]
pub struct VulkanData {
    pub vertex_shader_module: u64,
    pub tese_shader_module: u64,
    pub tesc_shader_module: u64,
    pub fragment_shader_module: u64,
    pub control_points_buffer: u64,
    pub patches_buffer: u64,
    /// The number of control points of one patch.
    pub patch_point_count: u32,
    pub instances_buffer: u64,
    /// One uniform buffer per frame in flight.
    pub uniform_buffers: Vec<u64>,
    pub descriptor_set_layout: u64,
    pub pipeline_layout: u64,
    pub render_pass: u64,
    pub solid_pipeline: u64,
    pub wireframe_pipeline: u64,
}

/// The drawing objects in the order in which they were made.
pub open spec fn data_construction_order(data: VulkanData) -> Seq<Resource> {
    seq![
        single(ResourceKind::VertexShader, data.vertex_shader_module),
        single(ResourceKind::TessEvalShader, data.tese_shader_module),
        single(ResourceKind::TessControlShader, data.tesc_shader_module),
        single(ResourceKind::FragmentShader, data.fragment_shader_module),
        single(ResourceKind::ControlPointsBuffer, data.control_points_buffer),
        single(ResourceKind::PatchesBuffer, data.patches_buffer),
        single(ResourceKind::InstancesBuffer, data.instances_buffer),
    ] + numbered(ResourceKind::UniformBuffer, data.uniform_buffers@) + seq![
        single(ResourceKind::DescriptorSetLayout, data.descriptor_set_layout),
        single(ResourceKind::PipelineLayout, data.pipeline_layout),
        single(ResourceKind::RenderPass, data.render_pass),
        single(ResourceKind::SolidPipeline, data.solid_pipeline),
        single(ResourceKind::WireframePipeline, data.wireframe_pipeline),
    ]
}

/// The order in which the drawing objects are destroyed: the reverse of
/// the order in which they were made.
pub open spec fn data_teardown_order(data: VulkanData) -> Seq<Resource> {
    rollback_order(data_construction_order(data))
}

/// Whether `resources` holds an object of every kind that the drawing
/// objects need one of.
pub open spec fn holds_all(resources: Seq<Resource>) -> bool {
    &&& handle_of(resources, ResourceKind::VertexShader, 0) is Some
    &&& handle_of(resources, ResourceKind::TessEvalShader, 0) is Some
    &&& handle_of(resources, ResourceKind::TessControlShader, 0) is Some
    &&& handle_of(resources, ResourceKind::FragmentShader, 0) is Some
    &&& handle_of(resources, ResourceKind::ControlPointsBuffer, 0) is Some
    &&& handle_of(resources, ResourceKind::PatchesBuffer, 0) is Some
    &&& handle_of(resources, ResourceKind::InstancesBuffer, 0) is Some
    &&& handle_of(resources, ResourceKind::DescriptorSetLayout, 0) is Some
    &&& handle_of(resources, ResourceKind::PipelineLayout, 0) is Some
    &&& handle_of(resources, ResourceKind::RenderPass, 0) is Some
    &&& handle_of(resources, ResourceKind::SolidPipeline, 0) is Some
    &&& handle_of(resources, ResourceKind::WireframePipeline, 0) is Some
}

impl VulkanData {
    /// Begins making the drawing objects, with `uniform_buffers` uniform
    /// buffers.
    pub fn new(uniform_buffers: usize) -> (progress: Progress)
        ensures
            progress@ == start(data_plan(uniform_buffers as nat)),
    {
        let mut plan: Vec<Step> = Vec::new();
        plan.push(Step { kind: ResourceKind::VertexShader, index: 0 });
        plan.push(Step { kind: ResourceKind::TessEvalShader, index: 0 });
        plan.push(Step { kind: ResourceKind::TessControlShader, index: 0 });
        plan.push(Step { kind: ResourceKind::FragmentShader, index: 0 });
        plan.push(Step { kind: ResourceKind::ControlPointsBuffer, index: 0 });
        plan.push(Step { kind: ResourceKind::PatchesBuffer, index: 0 });
        plan.push(Step { kind: ResourceKind::InstancesBuffer, index: 0 });
        let ghost head = plan@;
        let mut i: usize = 0;
        while i < uniform_buffers
            invariant
                i <= uniform_buffers,
                plan@ =~= head + series_plan(ResourceKind::UniformBuffer, i as nat),
            decreases uniform_buffers - i,
        {
            plan.push(Step { kind: ResourceKind::UniformBuffer, index: i });
            i += 1;
        }
        plan.push(Step { kind: ResourceKind::DescriptorSetLayout, index: 0 });
        plan.push(Step { kind: ResourceKind::PipelineLayout, index: 0 });
        plan.push(Step { kind: ResourceKind::RenderPass, index: 0 });
        plan.push(Step { kind: ResourceKind::SolidPipeline, index: 0 });
        plan.push(Step { kind: ResourceKind::WireframePipeline, index: 0 });
        assert(plan@ =~= data_plan(uniform_buffers as nat));
        Transaction::begin(plan)
    }

    /// Puts the drawing objects together from what the transaction
    /// committed. Where an object is missing, nothing is kept: `resources`
    /// come back as the list of what to destroy, the one made last first.
    pub fn assemble(resources: &Vec<Resource>, patch_point_count: u32) -> (data: Result<
        VulkanData,
        Vec<Resource>,
    >)
        ensures
            data is Ok <==> holds_all(resources@),
            data matches Err(destroy) ==> destroy@ == rollback_order(resources@),
            data matches Ok(d) ==> {
                &&& Some(d.vertex_shader_module) == handle_of(
                    resources@,
                    ResourceKind::VertexShader,
                    0,
                )
                &&& Some(d.tese_shader_module) == handle_of(
                    resources@,
                    ResourceKind::TessEvalShader,
                    0,
                )
                &&& Some(d.tesc_shader_module) == handle_of(
                    resources@,
                    ResourceKind::TessControlShader,
                    0,
                )
                &&& Some(d.fragment_shader_module) == handle_of(
                    resources@,
                    ResourceKind::FragmentShader,
                    0,
                )
                &&& Some(d.control_points_buffer) == handle_of(
                    resources@,
                    ResourceKind::ControlPointsBuffer,
                    0,
                )
                &&& Some(d.patches_buffer) == handle_of(resources@, ResourceKind::PatchesBuffer, 0)
                &&& d.patch_point_count == patch_point_count
                &&& Some(d.instances_buffer) == handle_of(
                    resources@,
                    ResourceKind::InstancesBuffer,
                    0,
                )
                &&& d.uniform_buffers@ == handles_of_kind(resources@, ResourceKind::UniformBuffer)
                &&& Some(d.descriptor_set_layout) == handle_of(
                    resources@,
                    ResourceKind::DescriptorSetLayout,
                    0,
                )
                &&& Some(d.pipeline_layout) == handle_of(
                    resources@,
                    ResourceKind::PipelineLayout,
                    0,
                )
                &&& Some(d.render_pass) == handle_of(resources@, ResourceKind::RenderPass, 0)
                &&& Some(d.solid_pipeline) == handle_of(resources@, ResourceKind::SolidPipeline, 0)
                &&& Some(d.wireframe_pipeline) == handle_of(
                    resources@,
                    ResourceKind::WireframePipeline,
                    0,
                )
            },
    {
        let vertex = lookup(resources, ResourceKind::VertexShader, 0);
        let tese = lookup(resources, ResourceKind::TessEvalShader, 0);
        let tesc = lookup(resources, ResourceKind::TessControlShader, 0);
        let fragment = lookup(resources, ResourceKind::FragmentShader, 0);
        let control_points = lookup(resources, ResourceKind::ControlPointsBuffer, 0);
        let patches = lookup(resources, ResourceKind::PatchesBuffer, 0);
        let instances = lookup(resources, ResourceKind::InstancesBuffer, 0);
        let set_layout = lookup(resources, ResourceKind::DescriptorSetLayout, 0);
        let pipeline_layout = lookup(resources, ResourceKind::PipelineLayout, 0);
        let render_pass = lookup(resources, ResourceKind::RenderPass, 0);
        let solid = lookup(resources, ResourceKind::SolidPipeline, 0);
        let wireframe = lookup(resources, ResourceKind::WireframePipeline, 0);
        match (vertex, tese, tesc, fragment, control_points, patches) {
            (
                Some(vertex),
                Some(tese),
                Some(tesc),
                Some(fragment),
                Some(control_points),
                Some(patches),
            ) => match (instances, set_layout, pipeline_layout, render_pass, solid, wireframe) {
                (
                    Some(instances),
                    Some(set_layout),
                    Some(pipeline_layout),
                    Some(render_pass),
                    Some(solid),
                    Some(wireframe),
                ) => Ok(
                    VulkanData {
                        vertex_shader_module: vertex,
                        tese_shader_module: tese,
                        tesc_shader_module: tesc,
                        fragment_shader_module: fragment,
                        control_points_buffer: control_points,
                        patches_buffer: patches,
                        patch_point_count,
                        instances_buffer: instances,
                        uniform_buffers: handles_of(resources, ResourceKind::UniformBuffer),
                        descriptor_set_layout: set_layout,
                        pipeline_layout,
                        render_pass,
                        solid_pipeline: solid,
                        wireframe_pipeline: wireframe,
                    },
                ),
                _ => Err(unwind(resources)),
            },
            _ => Err(unwind(resources)),
        }
    }

    /// Takes the drawing objects down: the device is to be waited for, and
    /// then the objects are to be destroyed, the object made last first.
    pub fn clean(self) -> (teardown: Teardown)
        ensures
            teardown.wait_idle,
            teardown.destroy@ == data_teardown_order(self),
    {
        let mut scope = Scope::new();
        scope.guard(
            Resource { kind: ResourceKind::VertexShader, index: 0, handle: self.vertex_shader_module },
        );
        scope.guard(
            Resource { kind: ResourceKind::TessEvalShader, index: 0, handle: self.tese_shader_module },
        );
        scope.guard(
            Resource {
                kind: ResourceKind::TessControlShader,
                index: 0,
                handle: self.tesc_shader_module,
            },
        );
        scope.guard(
            Resource {
                kind: ResourceKind::FragmentShader,
                index: 0,
                handle: self.fragment_shader_module,
            },
        );
        scope.guard(
            Resource {
                kind: ResourceKind::ControlPointsBuffer,
                index: 0,
                handle: self.control_points_buffer,
            },
        );
        scope.guard(
            Resource { kind: ResourceKind::PatchesBuffer, index: 0, handle: self.patches_buffer },
        );
        scope.guard(
            Resource { kind: ResourceKind::InstancesBuffer, index: 0, handle: self.instances_buffer },
        );
        let ghost head = scope@;
        let mut i: usize = 0;
        while i < self.uniform_buffers.len()
            invariant
                i <= self.uniform_buffers@.len(),
                scope@ =~= head + numbered(
                    ResourceKind::UniformBuffer,
                    self.uniform_buffers@.take(i as int),
                ),
            decreases self.uniform_buffers.len() - i,
        {
            scope.guard(
                Resource {
                    kind: ResourceKind::UniformBuffer,
                    index: i,
                    handle: self.uniform_buffers[i],
                },
            );
            i += 1;
        }
        assert(self.uniform_buffers@.take(i as int) =~= self.uniform_buffers@);
        scope.guard(
            Resource {
                kind: ResourceKind::DescriptorSetLayout,
                index: 0,
                handle: self.descriptor_set_layout,
            },
        );
        scope.guard(
            Resource { kind: ResourceKind::PipelineLayout, index: 0, handle: self.pipeline_layout },
        );
        scope.guard(Resource { kind: ResourceKind::RenderPass, index: 0, handle: self.render_pass });
        scope.guard(
            Resource { kind: ResourceKind::SolidPipeline, index: 0, handle: self.solid_pipeline },
        );
        scope.guard(
            Resource {
                kind: ResourceKind::WireframePipeline,
                index: 0,
                handle: self.wireframe_pipeline,
            },
        );
        assert(scope@ =~= data_construction_order(self));
        Teardown { wait_idle: true, destroy: scope.rollback() }
    }
}

/// Takes everything down: the device is to be waited for once, whatever
/// the wait gives, and then the drawing objects and after them the objects
/// of the context are to be destroyed, each group with the object made
/// last first. Neither is left behind. Both must be there.
pub fn vulkan_clean(vulkan_base: &mut Option<VulkanBase>, vulkan_data: &mut Option<VulkanData>) -> (teardown:
    Teardown)
    requires
        *old(vulkan_base) is Some,
        *old(vulkan_data) is Some,
    ensures
        *final(vulkan_base) is None,
        *final(vulkan_data) is None,
        teardown.wait_idle,
        teardown.destroy@ == data_teardown_order(old(vulkan_data)->Some_0) + teardown_order(
            old(vulkan_base)->Some_0.context,
            live_view(old(vulkan_base)->Some_0.swapchain),
        ),
{
    let base = vulkan_base.take().unwrap();
    let data = vulkan_data.take().unwrap();
    let Teardown { wait_idle: _, destroy } = data.clean();
    let Teardown { wait_idle: _, destroy: rest } = base.clean();
    let mut destroy = destroy;
    let mut rest = rest;
    destroy.append(&mut rest);
    Teardown { wait_idle: true, destroy }
}

/// The handles picked out of a committed series are the handles that its
/// steps reported, in order: nothing is lost and nothing is added.
pub proof fn series_handles(kind: ResourceKind, count: nat, handles: Seq<u64>)
    requires
        kind.spec_leaves_object(),
        handles.len() <= count <= usize::MAX,
    ensures
        handles_of_kind(made(series_plan(kind, count), handles), kind) == handles,
    decreases handles.len(),
{
    if handles.len() > 0 {
        series_handles(kind, count, handles.drop_last());
        let before = made(series_plan(kind, count), handles.drop_last());
        let all = made(series_plan(kind, count), handles);
        assert(all.drop_last() =~= before);
        assert(handles_of_kind(all, kind) =~= handles);
    }
}

/// A resize builds by the same plans: once its depth buffer has memory
/// bound, what it has built is the new swapchain, then what the plan of
/// the image views makes, then what the plan of the depth buffer makes up
/// to the binding.
pub proof fn resize_follows_the_plans(resize: ResizeModel, binding: u64)
    requires
        resize.stage == ResizeStage::DepthView,
        resize.views.len() <= usize::MAX,
    ensures
        resize.built() == seq![single(ResourceKind::Swapchain, resize.swapchain)] + made(
            series_plan(ResourceKind::SwapchainImageView, resize.views.len()),
            resize.views,
        ) + made(
            depth_buffer_plan(),
            seq![resize.depth_image, resize.depth_allocation, binding],
        ),
{
    let views = made(
        series_plan(ResourceKind::SwapchainImageView, resize.views.len()),
        resize.views,
    );
    series_rolls_back_what_exists(
        ResourceKind::SwapchainImageView,
        resize.views.len(),
        resize.views,
    );
    assert(views =~= view_resources(resize.views));
    let three = seq![resize.depth_image, resize.depth_allocation, binding];
    let two = seq![resize.depth_image, resize.depth_allocation];
    let one = seq![resize.depth_image];
    assert(three.drop_last() =~= two);
    assert(two.drop_last() =~= one);
    assert(one.drop_last() =~= Seq::<u64>::empty());
    assert(made(depth_buffer_plan(), one) =~= seq![
        single(ResourceKind::DepthImage, resize.depth_image),
    ]) by {
        assert(made(depth_buffer_plan(), one.drop_last()) =~= Seq::<Resource>::empty());
    }
    assert(made(depth_buffer_plan(), two) =~= seq![
        single(ResourceKind::DepthImage, resize.depth_image),
        single(ResourceKind::DepthMemory, resize.depth_allocation),
    ]);
    assert(made(depth_buffer_plan(), three) =~= made(depth_buffer_plan(), two));
    assert(resize.built() =~= seq![single(ResourceKind::Swapchain, resize.swapchain)] + views
        + made(depth_buffer_plan(), three));
}

/// What the plan of the drawing objects commits always assembles: every
/// kind of object that the drawing objects need is there.
pub proof fn committed_data_assembles(uniform_buffers: nat, handles: Seq<u64>)
    requires
        handles.len() == data_plan(uniform_buffers).len(),
    ensures
        holds_all(made(data_plan(uniform_buffers), handles)),
{
    let plan = data_plan(uniform_buffers);
    let n = uniform_buffers as int;
    assert(plan.len() == 12 + n);
    assert forall|i: int| 0 <= i < plan.len() implies (#[trigger] plan[i]).kind.spec_leaves_object() by {
        if i < 7 {
        } else if i < 7 + n {
            assert(plan[i] == series_plan(ResourceKind::UniformBuffer, uniform_buffers)[i - 7]);
        } else {
        }
    }
    one_object_per_step(plan, handles);
    let all = made(plan, handles);
    assert(all[0] == resource_of(plan[0], handles[0]));
    assert(all[1] == resource_of(plan[1], handles[1]));
    assert(all[2] == resource_of(plan[2], handles[2]));
    assert(all[3] == resource_of(plan[3], handles[3]));
    assert(all[4] == resource_of(plan[4], handles[4]));
    assert(all[5] == resource_of(plan[5], handles[5]));
    assert(all[6] == resource_of(plan[6], handles[6]));
    assert(all[7 + n] == resource_of(plan[7 + n], handles[7 + n]));
    assert(all[8 + n] == resource_of(plan[8 + n], handles[8 + n]));
    assert(all[9 + n] == resource_of(plan[9 + n], handles[9 + n]));
    assert(all[10 + n] == resource_of(plan[10 + n], handles[10 + n]));
    assert(all[11 + n] == resource_of(plan[11 + n], handles[11 + n]));
    made_is_found(all, ResourceKind::VertexShader, 0, 0);
    made_is_found(all, ResourceKind::TessEvalShader, 0, 1);
    made_is_found(all, ResourceKind::TessControlShader, 0, 2);
    made_is_found(all, ResourceKind::FragmentShader, 0, 3);
    made_is_found(all, ResourceKind::ControlPointsBuffer, 0, 4);
    made_is_found(all, ResourceKind::PatchesBuffer, 0, 5);
    made_is_found(all, ResourceKind::InstancesBuffer, 0, 6);
    made_is_found(all, ResourceKind::DescriptorSetLayout, 0, 7 + n);
    made_is_found(all, ResourceKind::PipelineLayout, 0, 8 + n);
    made_is_found(all, ResourceKind::RenderPass, 0, 9 + n);
    made_is_found(all, ResourceKind::SolidPipeline, 0, 10 + n);
    made_is_found(all, ResourceKind::WireframePipeline, 0, 11 + n);
}

/// What the plan of a staged upload commits is the staging buffer with its
/// memory and then the buffer with its memory, so the upload always ends
/// with the buffer kept and the staging objects retired.
pub proof fn committed_upload_finishes(handles: Seq<u64>)
    requires
        handles.len() == staged_buffer_plan().len(),
    ensures
        made(staged_buffer_plan(), handles) == seq![
            single(ResourceKind::StagingBuffer, handles[0]),
            single(ResourceKind::StagingMemory, handles[1]),
            single(ResourceKind::Buffer, handles[4]),
            single(ResourceKind::BufferMemory, handles[5]),
        ],
        buffer_among(made(staged_buffer_plan(), handles)) == Some(
            MemBuffer { buffer: handles[4], allocation: handles[5] },
        ),
        staging_among(made(staged_buffer_plan(), handles)) == Some(
            seq![
                single(ResourceKind::StagingMemory, handles[1]),
                single(ResourceKind::StagingBuffer, handles[0]),
            ],
        ),
{
    let plan = staged_buffer_plan();
    let h8 = handles;
    let h7 = h8.drop_last();
    let h6 = h7.drop_last();
    let h5 = h6.drop_last();
    let h4 = h5.drop_last();
    let h3 = h4.drop_last();
    let h2 = h3.drop_last();
    let h1 = h2.drop_last();
    assert(made(plan, h1.drop_last()) =~= Seq::<Resource>::empty());
    assert(made(plan, h1) =~= seq![single(ResourceKind::StagingBuffer, handles[0])]);
    assert(made(plan, h2) =~= seq![
        single(ResourceKind::StagingBuffer, handles[0]),
        single(ResourceKind::StagingMemory, handles[1]),
    ]);
    assert(made(plan, h3) =~= made(plan, h2));
    assert(made(plan, h4) =~= made(plan, h2));
    assert(made(plan, h5) =~= made(plan, h2).push(single(ResourceKind::Buffer, handles[4])));
    assert(made(plan, h6) =~= made(plan, h5).push(single(ResourceKind::BufferMemory, handles[5])));
    assert(made(plan, h7) =~= made(plan, h6));
    assert(made(plan, h8) =~= made(plan, h6));
    let all = made(plan, handles);
    assert(all =~= seq![
        single(ResourceKind::StagingBuffer, handles[0]),
        single(ResourceKind::StagingMemory, handles[1]),
        single(ResourceKind::Buffer, handles[4]),
        single(ResourceKind::BufferMemory, handles[5]),
    ]);
    found_at(all, 0);
    found_at(all, 1);
    found_at(all, 2);
    found_at(all, 3);
}

proof fn found_at(resources: Seq<Resource>, at: int)
    requires
        0 <= at < resources.len(),
        forall|j: int|
            0 <= j < at ==> (#[trigger] resources[j]).kind != resources[at].kind || resources[j].index
                != resources[at].index,
    ensures
        handle_of(resources, resources[at].kind, resources[at].index) == Some(resources[at].handle),
{
    let accept = crate::resource::made_by(resources[at].kind, resources[at].index);
    assert(crate::select::is_first(resources, accept, at));
    crate::select::first_is(resources, accept, at);
}

/// In the plan of the drawing objects the solid pipeline is followed by
/// the wireframe pipeline, so the one call that makes both can report both.
pub proof fn pipelines_are_made_together(uniform_buffers: nat)
    ensures
        data_plan(uniform_buffers).len() == 12 + uniform_buffers,
        data_plan(uniform_buffers)[10 + uniform_buffers as int] == once(
            ResourceKind::SolidPipeline,
        ),
        data_plan(uniform_buffers)[11 + uniform_buffers as int] == once(
            ResourceKind::WireframePipeline,
        ),
        ResourceKind::SolidPipeline.spec_made_with_next(),
        forall|i: int|
            0 <= i < data_plan(uniform_buffers).len() && i != 10 + uniform_buffers ==> !(
            #[trigger] data_plan(uniform_buffers)[i]).kind.spec_made_with_next(),
{
    let plan = data_plan(uniform_buffers);
    let n = uniform_buffers as int;
    assert forall|i: int| 0 <= i < plan.len() && i != 10 + n implies !(
    #[trigger] plan[i]).kind.spec_made_with_next() by {
        if 7 <= i < 7 + n {
            assert(plan[i] == series_plan(ResourceKind::UniformBuffer, uniform_buffers)[i - 7]);
        }
    }
}

} // verus!
