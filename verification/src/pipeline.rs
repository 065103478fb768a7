//! What the drawing objects are created with, as far as it is decided
//! here: bindings, push constants, attachments, the two pipeline variants
//! and the sizes of the per-frame pools.

use crate::resource::ResourceKind;
use crate::surface::Extent2D;
use vstd::prelude::*;

verus! {

/// A shader stage.
#[derive(Clone, Copy, Debug, PartialEq, Eq, Structural)]
pub enum ShaderStage {
    Vertex,
    TessellationControl,
    TessellationEvaluation,
    Fragment,
}

/// The kind of buffer behind a descriptor.
#[derive(Clone, Copy, Debug, PartialEq, Eq, Structural)]
pub enum DescriptorType {
    StorageBuffer,
    UniformBuffer,
}

/// How polygons are drawn.
#[derive(Clone, Copy, Debug, PartialEq, Eq, Structural)]
pub enum PolygonMode {
    Fill,
    Line,
}

/// Which faces are left out.
#[derive(Clone, Copy, Debug, PartialEq, Eq, Structural)]
pub enum CullMode {
    Nothing,
    Back,
}

/// What happens to an attachment when a render pass begins.
#[derive(Clone, Copy, Debug, PartialEq, Eq, Structural)]
pub enum LoadOp {
    Clear,
    Discard,
}

/// What happens to an attachment when a render pass ends.
#[derive(Clone, Copy, Debug, PartialEq, Eq, Structural)]
pub enum StoreOp {
    Store,
    Discard,
}

/// The layout of an image.
#[derive(Clone, Copy, Debug, PartialEq, Eq, Structural)]
pub enum ImageLayout {
    Undefined,
    ColorAttachmentOptimal,
    DepthStencilAttachmentOptimal,
    PresentSrc,
}

/// One binding of the descriptor set layout.
#[derive(Clone, Copy, Debug, PartialEq, Eq, Structural)]
pub struct DescriptorBinding {
    pub binding: u32,
    pub descriptor_type: DescriptorType,
    pub descriptor_count: u32,
    pub stage: ShaderStage,
}

/// What the pipeline layout is created with.
#[derive(Clone, Copy, Debug, PartialEq, Eq, Structural)]
pub struct PipelineLayoutInfo {
    pub descriptor_set_layout: u64,
    /// The stage that reads the push constants.
    pub push_constant_stage: ShaderStage,
    pub push_constant_offset: u32,
    pub push_constant_size: u32,
}

/// One attachment of the render pass.
#[derive(Clone, Copy, Debug, PartialEq, Eq, Structural)]
pub struct Attachment {
    pub format: i32,
    pub samples: u32,
    pub load_op: LoadOp,
    pub store_op: StoreOp,
    pub stencil_load_op: LoadOp,
    pub stencil_store_op: StoreOp,
    pub initial_layout: ImageLayout,
    pub final_layout: ImageLayout,
    /// The layout during the subpass.
    pub subpass_layout: ImageLayout,
}

/// What the render pass is created with: one subpass that draws to the
/// colour attachment (attachment 0) with the depth attachment (attachment
/// 1).
#[derive(Clone, Copy, Debug, PartialEq, Eq, Structural)]
pub struct RenderPassInfo {
    pub color: Attachment,
    pub depth: Attachment,
    /// The positions of the two attachments in the render pass.
    pub color_attachment: u32,
    pub depth_attachment: u32,
    /// The number of subpasses; the one subpass is a graphics subpass.
    pub subpasses: u32,
}

/// The function of a shader module that a stage starts with.
#[derive(Clone, Copy, Debug, PartialEq, Eq, Structural)]
pub enum EntryPoint {
    Main,
}

/// How vertices are put together.
#[derive(Clone, Copy, Debug, PartialEq, Eq, Structural)]
pub enum Topology {
    /// Lists of patches, for tessellation.
    PatchList,
}

/// The winding of a face that counts as its front.
#[derive(Clone, Copy, Debug, PartialEq, Eq, Structural)]
pub enum FrontFace {
    Clockwise,
}

/// When a fragment passes the depth test.
#[derive(Clone, Copy, Debug, PartialEq, Eq, Structural)]
pub enum CompareOp {
    LessOrEqual,
}

/// The colour components that are written.
#[derive(Clone, Copy, Debug, PartialEq, Eq, Structural)]
pub struct ColorWrites {
    pub red: bool,
    pub green: bool,
    pub blue: bool,
    pub alpha: bool,
}

/// A shader module with the stage that it serves and the function that
/// the stage starts with.
#[derive(Clone, Copy, Debug, PartialEq, Eq, Structural)]
pub struct StageModule {
    pub stage: ShaderStage,
    pub module: u64,
    pub entry: EntryPoint,
}

/// What one of the two pipelines is created with. The width of lines, a
/// floating-point number, is not part of it.
#[derive(Clone, Copy, Debug, PartialEq, Eq, Structural)]
pub struct PipelineInfo {
    pub vertex: StageModule,
    pub tess_control: StageModule,
    pub tess_eval: StageModule,
    pub fragment: StageModule,
    pub layout: u64,
    pub render_pass: u64,
    pub subpass: u32,
    /// The number of vertex buffer bindings and attributes; vertices come
    /// from storage buffers, so there are none.
    pub vertex_inputs: u32,
    pub topology: Topology,
    pub patch_control_points: u32,
    pub polygon_mode: PolygonMode,
    pub cull_mode: CullMode,
    pub front_face: FrontFace,
    pub samples: u32,
    pub depth_test: bool,
    pub depth_write: bool,
    pub depth_compare: CompareOp,
    pub blend: bool,
    pub color_writes: ColorWrites,
    pub viewports: u32,
    pub scissors: u32,
    /// Whether viewport and scissor are set while drawing.
    pub dynamic_viewport: bool,
    pub dynamic_scissor: bool,
    /// Whether other pipelines may derive from this one.
    pub allow_derivatives: bool,
    /// The position, in the list of the pipelines that one call creates,
    /// of the pipeline that this one derives from.
    pub derives_from: Option<u32>,
}

/// What a descriptor pool is created with.
#[derive(Clone, Copy, Debug, PartialEq, Eq, Structural)]
pub struct DescriptorPoolInfo {
    pub max_sets: u32,
    pub storage_buffers: u32,
    pub uniform_buffers: u32,
}

/// What a command pool is created with.
#[derive(Clone, Copy, Debug, PartialEq, Eq, Structural)]
pub struct CommandPoolInfo {
    pub queue_family: u32,
    /// Whether command buffers of the pool are short-lived.
    pub transient: bool,
}

/// What a fence is created with.
#[derive(Clone, Copy, Debug, PartialEq, Eq, Structural)]
pub struct FenceInfo {
    pub signalled: bool,
}

/// What a framebuffer is created with.
#[derive(Clone, Copy, Debug, PartialEq, Eq, Structural)]
pub struct FramebufferInfo {
    pub render_pass: u64,
    pub color_view: u64,
    pub depth_view: u64,
    pub width: u32,
    pub height: u32,
    pub layers: u32,
}

/// What a buffer is used as.
#[derive(Clone, Copy, Debug, PartialEq, Eq, Structural)]
pub enum BufferUsage {
    Storage,
    Index,
    Uniform,
}

/// The part of the pipeline that reads a buffer first.
#[derive(Clone, Copy, Debug, PartialEq, Eq, Structural)]
pub enum BufferReader {
    VertexInput,
    VertexShader,
    TessellationEvaluationShader,
}

/// Where the memory of a buffer lies.
#[derive(Clone, Copy, Debug, PartialEq, Eq, Structural)]
pub enum BufferPlace {
    /// Memory of the device that the host does not reach.
    DeviceOnly,
    /// Memory that the host writes and the device reads.
    HostToDevice,
}

/// What a staging buffer is created with: a source of transfers in memory
/// that the host writes.
#[derive(Clone, Copy, Debug, PartialEq, Eq, Structural)]
pub struct StagingInfo {
    pub transfer_source: bool,
    pub place: BufferPlace,
}

/// What one of the buffers of the drawing objects is created with.
#[derive(Clone, Copy, Debug, PartialEq, Eq, Structural)]
pub struct BufferInfo {
    pub usage: BufferUsage,
    pub reader: BufferReader,
    pub place: BufferPlace,
    /// Whether the buffer is the target of a transfer.
    pub transfer_target: bool,
    /// Whether the buffer lives in device memory and is filled once through
    /// a staging buffer; a buffer that does not is written by the host
    /// every frame.
    pub staged: bool,
}

/// The number of control points of one patch.
pub const PATCH_CONTROL_POINTS: u32 = 16;

/// The size in bytes of a uniform buffer: one matrix of four by four
/// numbers of four bytes.
pub const UNIFORM_BUFFER_SIZE: u64 = 64;

/// The number of sets, and of descriptors of either kind, in a descriptor
/// pool.
pub const DESCRIPTORS_PER_POOL: u32 = 100;

/// The three bindings: control points for the vertex stage, then patch
/// data and the uniform values for the tessellation evaluation stage.
pub open spec fn descriptor_bindings() -> Seq<DescriptorBinding> {
    seq![
        DescriptorBinding {
            binding: 0,
            descriptor_type: DescriptorType::StorageBuffer,
            descriptor_count: 1,
            stage: ShaderStage::Vertex,
        },
        DescriptorBinding {
            binding: 1,
            descriptor_type: DescriptorType::StorageBuffer,
            descriptor_count: 1,
            stage: ShaderStage::TessellationEvaluation,
        },
        DescriptorBinding {
            binding: 2,
            descriptor_type: DescriptorType::UniformBuffer,
            descriptor_count: 1,
            stage: ShaderStage::TessellationEvaluation,
        },
    ]
}

/// The name of an entry point, as it stands in a shader module.
pub open spec fn entry_point_name(entry: EntryPoint) -> Seq<char> {
    match entry {
        EntryPoint::Main => "main"@,
    }
}

/// The solid pipeline: the four stages, each starting at `main`; patches of
/// sixteen control points; filled polygons, no culling, clockwise front
/// faces; one sample; depth tested and written where less or equal; no
/// blending, all colour components written; one viewport and one scissor,
/// both set while drawing; open to derivation.
pub open spec fn solid_pipeline(
    vertex: u64,
    tess_control: u64,
    tess_eval: u64,
    fragment: u64,
    layout: u64,
    render_pass: u64,
) -> PipelineInfo {
    PipelineInfo {
        vertex: StageModule {
            stage: ShaderStage::Vertex,
            module: vertex,
            entry: EntryPoint::Main,
        },
        tess_control: StageModule {
            stage: ShaderStage::TessellationControl,
            module: tess_control,
            entry: EntryPoint::Main,
        },
        tess_eval: StageModule {
            stage: ShaderStage::TessellationEvaluation,
            module: tess_eval,
            entry: EntryPoint::Main,
        },
        fragment: StageModule {
            stage: ShaderStage::Fragment,
            module: fragment,
            entry: EntryPoint::Main,
        },
        layout,
        render_pass,
        subpass: 0,
        vertex_inputs: 0,
        topology: Topology::PatchList,
        patch_control_points: PATCH_CONTROL_POINTS,
        polygon_mode: PolygonMode::Fill,
        cull_mode: CullMode::Nothing,
        front_face: FrontFace::Clockwise,
        samples: 1,
        depth_test: true,
        depth_write: true,
        depth_compare: CompareOp::LessOrEqual,
        blend: false,
        color_writes: ColorWrites { red: true, green: true, blue: true, alpha: true },
        viewports: 1,
        scissors: 1,
        dynamic_viewport: true,
        dynamic_scissor: true,
        allow_derivatives: true,
        derives_from: None,
    }
}

/// The wireframe pipeline: the solid pipeline with polygons drawn as lines,
/// derived from the pipeline at position 0 of the list that the one call
/// creates, which is the solid pipeline.
pub open spec fn wireframe_pipeline(solid: PipelineInfo) -> PipelineInfo {
    PipelineInfo {
        polygon_mode: PolygonMode::Line,
        cull_mode: CullMode::Nothing,
        allow_derivatives: false,
        derives_from: Some(0u32),
        ..solid
    }
}

/// The path, relative to the working directory, of the compiled shader of
/// a stage.
pub open spec fn shader_file(stage: ShaderStage) -> Seq<char> {
    match stage {
        ShaderStage::Vertex => "shaders/shader.vert.spv"@,
        ShaderStage::TessellationControl => "shaders/shader.tesc.spv"@,
        ShaderStage::TessellationEvaluation => "shaders/shader.tese.spv"@,
        ShaderStage::Fragment => "shaders/shader.frag.spv"@,
    }
}

/// The stage that a step of the drawing objects makes the shader module
/// of, if it makes one.
pub open spec fn stage_of(kind: ResourceKind) -> Option<ShaderStage> {
    match kind {
        ResourceKind::VertexShader => Some(ShaderStage::Vertex),
        ResourceKind::TessControlShader => Some(ShaderStage::TessellationControl),
        ResourceKind::TessEvalShader => Some(ShaderStage::TessellationEvaluation),
        ResourceKind::FragmentShader => Some(ShaderStage::Fragment),
        _ => None,
    }
}

/// What a step of the drawing objects creates its buffer with, if it
/// creates one: control points and instance transforms are storage
/// buffers, patch indices are an index buffer, all three filled once; the
/// uniform buffers are written every frame.
pub open spec fn buffer_of(kind: ResourceKind) -> Option<BufferInfo> {
    match kind {
        ResourceKind::ControlPointsBuffer => Some(
            BufferInfo {
                usage: BufferUsage::Storage,
                reader: BufferReader::VertexShader,
                place: BufferPlace::DeviceOnly,
                transfer_target: true,
                staged: true,
            },
        ),
        ResourceKind::PatchesBuffer => Some(
            BufferInfo {
                usage: BufferUsage::Index,
                reader: BufferReader::VertexInput,
                place: BufferPlace::DeviceOnly,
                transfer_target: true,
                staged: true,
            },
        ),
        ResourceKind::InstancesBuffer => Some(
            BufferInfo {
                usage: BufferUsage::Storage,
                reader: BufferReader::TessellationEvaluationShader,
                place: BufferPlace::DeviceOnly,
                transfer_target: true,
                staged: true,
            },
        ),
        ResourceKind::UniformBuffer => Some(
            BufferInfo {
                usage: BufferUsage::Uniform,
                reader: BufferReader::TessellationEvaluationShader,
                place: BufferPlace::HostToDevice,
                transfer_target: false,
                staged: false,
            },
        ),
        _ => None,
    }
}

/// Says what a staging buffer is created with.
pub fn staging_info() -> (info: StagingInfo)
    ensures
        info == (StagingInfo { transfer_source: true, place: BufferPlace::HostToDevice }),
{
    StagingInfo { transfer_source: true, place: BufferPlace::HostToDevice }
}

/// Says where the compiled shader of a stage is read from.
pub fn shader_path(stage: ShaderStage) -> (path: &'static str)
    ensures
        path@ == shader_file(stage),
{
    match stage {
        ShaderStage::Vertex => "shaders/shader.vert.spv",
        ShaderStage::TessellationControl => "shaders/shader.tesc.spv",
        ShaderStage::TessellationEvaluation => "shaders/shader.tese.spv",
        ShaderStage::Fragment => "shaders/shader.frag.spv",
    }
}

/// Says which stage a step makes the shader module of.
pub fn shader_stage(kind: ResourceKind) -> (stage: Option<ShaderStage>)
    ensures
        stage == stage_of(kind),
{
    match kind {
        ResourceKind::VertexShader => Some(ShaderStage::Vertex),
        ResourceKind::TessControlShader => Some(ShaderStage::TessellationControl),
        ResourceKind::TessEvalShader => Some(ShaderStage::TessellationEvaluation),
        ResourceKind::FragmentShader => Some(ShaderStage::Fragment),
        _ => None,
    }
}

/// Says what a step creates its buffer with.
pub fn buffer_info(kind: ResourceKind) -> (info: Option<BufferInfo>)
    ensures
        info == buffer_of(kind),
{
    match kind {
        ResourceKind::ControlPointsBuffer => Some(
            BufferInfo {
                usage: BufferUsage::Storage,
                reader: BufferReader::VertexShader,
                place: BufferPlace::DeviceOnly,
                transfer_target: true,
                staged: true,
            },
        ),
        ResourceKind::PatchesBuffer => Some(
            BufferInfo {
                usage: BufferUsage::Index,
                reader: BufferReader::VertexInput,
                place: BufferPlace::DeviceOnly,
                transfer_target: true,
                staged: true,
            },
        ),
        ResourceKind::InstancesBuffer => Some(
            BufferInfo {
                usage: BufferUsage::Storage,
                reader: BufferReader::TessellationEvaluationShader,
                place: BufferPlace::DeviceOnly,
                transfer_target: true,
                staged: true,
            },
        ),
        ResourceKind::UniformBuffer => Some(
            BufferInfo {
                usage: BufferUsage::Uniform,
                reader: BufferReader::TessellationEvaluationShader,
                place: BufferPlace::HostToDevice,
                transfer_target: false,
                staged: false,
            },
        ),
        _ => None,
    }
}

/// The bindings of the descriptor set layout.
pub fn create_descriptor_set_layout() -> (bindings: Vec<DescriptorBinding>)
    ensures
        bindings@ == descriptor_bindings(),
{
    let mut bindings: Vec<DescriptorBinding> = Vec::new();
    bindings.push(
        DescriptorBinding {
            binding: 0,
            descriptor_type: DescriptorType::StorageBuffer,
            descriptor_count: 1,
            stage: ShaderStage::Vertex,
        },
    );
    bindings.push(
        DescriptorBinding {
            binding: 1,
            descriptor_type: DescriptorType::StorageBuffer,
            descriptor_count: 1,
            stage: ShaderStage::TessellationEvaluation,
        },
    );
    bindings.push(
        DescriptorBinding {
            binding: 2,
            descriptor_type: DescriptorType::UniformBuffer,
            descriptor_count: 1,
            stage: ShaderStage::TessellationEvaluation,
        },
    );
    assert(bindings@ =~= descriptor_bindings());
    bindings
}

/// What the pipeline layout is created with: the one descriptor set layout
/// and four bytes of push constants for the tessellation control stage.
pub fn create_pipeline_layout(descriptor_set_layout: u64) -> (info: PipelineLayoutInfo)
    ensures
        info == (PipelineLayoutInfo {
            descriptor_set_layout,
            push_constant_stage: ShaderStage::TessellationControl,
            push_constant_offset: 0,
            push_constant_size: 4,
        }),
{
    PipelineLayoutInfo {
        descriptor_set_layout,
        push_constant_stage: ShaderStage::TessellationControl,
        push_constant_offset: 0,
        push_constant_size: 4,
    }
}

/// What the render pass is created with. The colour attachment is cleared,
/// stored and left ready for presentation; the depth attachment is cleared
/// and not stored.
pub fn create_render_pass(surface_format: i32, depth_format: i32) -> (info: RenderPassInfo)
    ensures
        info == (RenderPassInfo {
            color: Attachment {
                format: surface_format,
                samples: 1,
                load_op: LoadOp::Clear,
                store_op: StoreOp::Store,
                stencil_load_op: LoadOp::Discard,
                stencil_store_op: StoreOp::Discard,
                initial_layout: ImageLayout::Undefined,
                final_layout: ImageLayout::PresentSrc,
                subpass_layout: ImageLayout::ColorAttachmentOptimal,
            },
            depth: Attachment {
                format: depth_format,
                samples: 1,
                load_op: LoadOp::Clear,
                store_op: StoreOp::Discard,
                stencil_load_op: LoadOp::Discard,
                stencil_store_op: StoreOp::Discard,
                initial_layout: ImageLayout::Undefined,
                final_layout: ImageLayout::DepthStencilAttachmentOptimal,
                subpass_layout: ImageLayout::DepthStencilAttachmentOptimal,
            },
            color_attachment: 0,
            depth_attachment: 1,
            subpasses: 1,
        }),
{
    RenderPassInfo {
        color: Attachment {
            format: surface_format,
            samples: 1,
            load_op: LoadOp::Clear,
            store_op: StoreOp::Store,
            stencil_load_op: LoadOp::Discard,
            stencil_store_op: StoreOp::Discard,
            initial_layout: ImageLayout::Undefined,
            final_layout: ImageLayout::PresentSrc,
            subpass_layout: ImageLayout::ColorAttachmentOptimal,
        },
        depth: Attachment {
            format: depth_format,
            samples: 1,
            load_op: LoadOp::Clear,
            store_op: StoreOp::Discard,
            stencil_load_op: LoadOp::Discard,
            stencil_store_op: StoreOp::Discard,
            initial_layout: ImageLayout::Undefined,
            final_layout: ImageLayout::DepthStencilAttachmentOptimal,
            subpass_layout: ImageLayout::DepthStencilAttachmentOptimal,
        },
        color_attachment: 0,
        depth_attachment: 1,
        subpasses: 1,
    }
}

/// Says how an entry point is named in a shader module.
pub fn entry_point(entry: EntryPoint) -> (name: &'static str)
    ensures
        name@ == entry_point_name(entry),
{
    match entry {
        EntryPoint::Main => "main",
    }
}

/// What the two pipelines are created with, by one call that is handed
/// both: the solid pipeline first, then the wireframe pipeline that
/// derives from it. The call gives back the two pipelines in this order.
pub fn create_pipelines(
    vertex_shader_module: u64,
    tess_control_shader_module: u64,
    tess_eval_shader_module: u64,
    fragment_shader_module: u64,
    pipeline_layout: u64,
    render_pass: u64,
) -> (pipelines: (PipelineInfo, PipelineInfo))
    ensures
        pipelines.0 == solid_pipeline(
            vertex_shader_module,
            tess_control_shader_module,
            tess_eval_shader_module,
            fragment_shader_module,
            pipeline_layout,
            render_pass,
        ),
        pipelines.1 == wireframe_pipeline(pipelines.0),
{
    let solid = PipelineInfo {
        vertex: StageModule {
            stage: ShaderStage::Vertex,
            module: vertex_shader_module,
            entry: EntryPoint::Main,
        },
        tess_control: StageModule {
            stage: ShaderStage::TessellationControl,
            module: tess_control_shader_module,
            entry: EntryPoint::Main,
        },
        tess_eval: StageModule {
            stage: ShaderStage::TessellationEvaluation,
            module: tess_eval_shader_module,
            entry: EntryPoint::Main,
        },
        fragment: StageModule {
            stage: ShaderStage::Fragment,
            module: fragment_shader_module,
            entry: EntryPoint::Main,
        },
        layout: pipeline_layout,
        render_pass,
        subpass: 0,
        vertex_inputs: 0,
        topology: Topology::PatchList,
        patch_control_points: PATCH_CONTROL_POINTS,
        polygon_mode: PolygonMode::Fill,
        cull_mode: CullMode::Nothing,
        front_face: FrontFace::Clockwise,
        samples: 1,
        depth_test: true,
        depth_write: true,
        depth_compare: CompareOp::LessOrEqual,
        blend: false,
        color_writes: ColorWrites { red: true, green: true, blue: true, alpha: true },
        viewports: 1,
        scissors: 1,
        dynamic_viewport: true,
        dynamic_scissor: true,
        allow_derivatives: true,
        derives_from: None,
    };
    let wireframe = PipelineInfo {
        polygon_mode: PolygonMode::Line,
        cull_mode: CullMode::Nothing,
        allow_derivatives: false,
        derives_from: Some(0u32),
        ..solid
    };
    (solid, wireframe)
}

/// What the framebuffer of one swapchain image is created with: the view
/// of the image and the view of the depth buffer, at the extent of the
/// swapchain, one layer deep.
pub fn framebuffer_info(
    render_pass: u64,
    color_view: u64,
    depth_view: u64,
    extent: Extent2D,
) -> (info: FramebufferInfo)
    ensures
        info == (FramebufferInfo {
            render_pass,
            color_view,
            depth_view,
            width: extent.width,
            height: extent.height,
            layers: 1,
        }),
{
    FramebufferInfo {
        render_pass,
        color_view,
        depth_view,
        width: extent.width,
        height: extent.height,
        layers: 1,
    }
}

/// What each command pool is created with.
pub fn command_pool_info(queue_family: u32) -> (info: CommandPoolInfo)
    ensures
        info == (CommandPoolInfo { queue_family, transient: true }),
{
    CommandPoolInfo { queue_family, transient: true }
}

/// What each descriptor pool is created with.
pub fn descriptor_pool_info() -> (info: DescriptorPoolInfo)
    ensures
        info == (DescriptorPoolInfo {
            max_sets: DESCRIPTORS_PER_POOL,
            storage_buffers: DESCRIPTORS_PER_POOL,
            uniform_buffers: DESCRIPTORS_PER_POOL,
        }),
{
    DescriptorPoolInfo {
        max_sets: DESCRIPTORS_PER_POOL,
        storage_buffers: DESCRIPTORS_PER_POOL,
        uniform_buffers: DESCRIPTORS_PER_POOL,
    }
}

/// What each fence is created with. Fences start signalled, so that the
/// first wait of each frame returns at once and does not hang on a fence
/// that nothing was ever submitted with.
pub fn fence_info() -> (info: FenceInfo)
    ensures
        info == (FenceInfo { signalled: true }),
{
    FenceInfo { signalled: true }
}

} // verus!
