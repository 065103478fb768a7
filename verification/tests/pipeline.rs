use vulkan_base::pipeline::{
    entry_point, ColorWrites, CompareOp, EntryPoint, FrontFace, Topology,
    buffer_info, shader_path, shader_stage, staging_info, BufferInfo, BufferPlace, BufferReader,
    BufferUsage, StagingInfo,
    command_pool_info, create_descriptor_set_layout, create_pipeline_layout, create_pipelines,
    create_render_pass, descriptor_pool_info, fence_info, framebuffer_info,
    CommandPoolInfo, CullMode, DescriptorBinding, DescriptorPoolInfo, DescriptorType, FenceInfo,
    FramebufferInfo, ImageLayout, LoadOp, PipelineLayoutInfo, PolygonMode, ShaderStage,
    StageModule, StoreOp, PATCH_CONTROL_POINTS, UNIFORM_BUFFER_SIZE,
};
use vulkan_base::resource::ResourceKind;
use vulkan_base::surface::Extent2D;

#[test]
fn three_descriptor_bindings() {
    assert_eq!(
        create_descriptor_set_layout(),
        vec![
            DescriptorBinding {
                binding: 0,
                descriptor_type: DescriptorType::StorageBuffer,
                descriptor_count: 1,
                stage: ShaderStage::Vertex,
            },
            DescriptorBinding {
                binding: 1,
                descriptor_type: DescriptorType::StorageBuffer,
                descriptor_count: 1,
                stage: ShaderStage::TessellationEvaluation,
            },
            DescriptorBinding {
                binding: 2,
                descriptor_type: DescriptorType::UniformBuffer,
                descriptor_count: 1,
                stage: ShaderStage::TessellationEvaluation,
            },
        ]
    );
}

#[test]
fn pipeline_layout_has_four_bytes_of_push_constants() {
    assert_eq!(
        create_pipeline_layout(0x77),
        PipelineLayoutInfo {
            descriptor_set_layout: 0x77,
            push_constant_stage: ShaderStage::TessellationControl,
            push_constant_offset: 0,
            push_constant_size: 4,
        }
    );
}

#[test]
fn render_pass_attachments() {
    let info = create_render_pass(44, 129);
    assert_eq!((info.color_attachment, info.depth_attachment), (0, 1));
    assert_eq!(info.subpasses, 1);
    assert_eq!(info.color.format, 44);
    assert_eq!(info.color.samples, 1);
    assert_eq!(info.color.stencil_load_op, LoadOp::Discard);
    assert_eq!(info.color.stencil_store_op, StoreOp::Discard);
    assert_eq!(info.depth.samples, 1);
    assert_eq!(info.depth.stencil_load_op, LoadOp::Discard);
    assert_eq!(info.depth.stencil_store_op, StoreOp::Discard);
    assert_eq!(info.color.load_op, LoadOp::Clear);
    assert_eq!(info.color.store_op, StoreOp::Store);
    assert_eq!(info.color.initial_layout, ImageLayout::Undefined);
    assert_eq!(info.color.final_layout, ImageLayout::PresentSrc);
    assert_eq!(info.color.subpass_layout, ImageLayout::ColorAttachmentOptimal);
    assert_eq!(info.depth.format, 129);
    assert_eq!(info.depth.load_op, LoadOp::Clear);
    assert_eq!(info.depth.store_op, StoreOp::Discard);
    assert_eq!(info.depth.initial_layout, ImageLayout::Undefined);
    assert_eq!(
        info.depth.final_layout,
        ImageLayout::DepthStencilAttachmentOptimal
    );
    assert_eq!(
        info.depth.subpass_layout,
        ImageLayout::DepthStencilAttachmentOptimal
    );
}

#[test]
fn wireframe_pipeline_derives_from_the_solid_one() {
    let (solid, wireframe) = create_pipelines(1, 2, 3, 4, 5, 6);
    assert_eq!(
        solid.vertex,
        StageModule {
            stage: ShaderStage::Vertex,
            module: 1,
            entry: EntryPoint::Main,
        }
    );
    assert_eq!(
        solid.tess_control,
        StageModule {
            stage: ShaderStage::TessellationControl,
            module: 2,
            entry: EntryPoint::Main,
        }
    );
    assert_eq!(
        solid.tess_eval,
        StageModule {
            stage: ShaderStage::TessellationEvaluation,
            module: 3,
            entry: EntryPoint::Main,
        }
    );
    assert_eq!(
        solid.fragment,
        StageModule {
            stage: ShaderStage::Fragment,
            module: 4,
            entry: EntryPoint::Main,
        }
    );
    assert_eq!(solid.layout, 5);
    assert_eq!(solid.render_pass, 6);
    assert_eq!(solid.subpass, 0);
    assert_eq!(solid.polygon_mode, PolygonMode::Fill);
    assert_eq!(solid.cull_mode, CullMode::Nothing);
    assert_eq!(solid.patch_control_points, 16);
    assert!(solid.depth_test);
    assert!(solid.depth_write);
    assert!(solid.allow_derivatives);
    assert_eq!(solid.derives_from, None);
    assert_eq!(solid.vertex_inputs, 0);
    assert_eq!(solid.topology, Topology::PatchList);
    assert_eq!(solid.front_face, FrontFace::Clockwise);
    assert_eq!(solid.samples, 1);
    assert_eq!(solid.depth_compare, CompareOp::LessOrEqual);
    assert!(!solid.blend);
    assert_eq!(
        solid.color_writes,
        ColorWrites {
            red: true,
            green: true,
            blue: true,
            alpha: true
        }
    );
    assert_eq!((solid.viewports, solid.scissors), (1, 1));
    assert!(solid.dynamic_viewport);
    assert!(solid.dynamic_scissor);
    assert_eq!(entry_point(solid.vertex.entry), "main");
    assert_eq!(entry_point(solid.fragment.entry), "main");

    assert_eq!(wireframe.polygon_mode, PolygonMode::Line);
    assert_eq!(wireframe.cull_mode, CullMode::Nothing);
    assert!(!wireframe.allow_derivatives);
    assert_eq!(wireframe.derives_from, Some(0));
    assert_eq!(wireframe.vertex, solid.vertex);
    assert_eq!(wireframe.tess_control, solid.tess_control);
    assert_eq!(wireframe.tess_eval, solid.tess_eval);
    assert_eq!(wireframe.fragment, solid.fragment);
    assert_eq!(wireframe.layout, solid.layout);
    assert_eq!(wireframe.render_pass, solid.render_pass);
    assert_eq!(wireframe.patch_control_points, solid.patch_control_points);
    assert_eq!(wireframe.topology, solid.topology);
    assert_eq!(wireframe.subpass, solid.subpass);
    assert_eq!(wireframe.front_face, solid.front_face);
    assert_eq!(wireframe.depth_compare, solid.depth_compare);
    assert_eq!(wireframe.color_writes, solid.color_writes);
}

#[test]
fn per_frame_object_parameters() {
    assert_eq!(
        framebuffer_info(
            1,
            2,
            3,
            Extent2D {
                width: 800,
                height: 600
            }
        ),
        FramebufferInfo {
            render_pass: 1,
            color_view: 2,
            depth_view: 3,
            width: 800,
            height: 600,
            layers: 1,
        }
    );
    assert_eq!(
        command_pool_info(4),
        CommandPoolInfo {
            queue_family: 4,
            transient: true
        }
    );
    assert_eq!(
        descriptor_pool_info(),
        DescriptorPoolInfo {
            max_sets: 100,
            storage_buffers: 100,
            uniform_buffers: 100
        }
    );
    assert_eq!(fence_info(), FenceInfo { signalled: true });
    assert_eq!(PATCH_CONTROL_POINTS, 16);
    assert_eq!(UNIFORM_BUFFER_SIZE, 64);
}

#[test]
fn shaders_are_read_from_fixed_paths() {
    assert_eq!(shader_path(ShaderStage::Vertex), "shaders/shader.vert.spv");
    assert_eq!(
        shader_path(ShaderStage::TessellationControl),
        "shaders/shader.tesc.spv"
    );
    assert_eq!(
        shader_path(ShaderStage::TessellationEvaluation),
        "shaders/shader.tese.spv"
    );
    assert_eq!(shader_path(ShaderStage::Fragment), "shaders/shader.frag.spv");
}

#[test]
fn shader_steps_and_their_stages() {
    assert_eq!(
        shader_stage(ResourceKind::VertexShader),
        Some(ShaderStage::Vertex)
    );
    assert_eq!(
        shader_stage(ResourceKind::TessControlShader),
        Some(ShaderStage::TessellationControl)
    );
    assert_eq!(
        shader_stage(ResourceKind::TessEvalShader),
        Some(ShaderStage::TessellationEvaluation)
    );
    assert_eq!(
        shader_stage(ResourceKind::FragmentShader),
        Some(ShaderStage::Fragment)
    );
    assert_eq!(shader_stage(ResourceKind::RenderPass), None);
    assert_eq!(shader_stage(ResourceKind::UniformBuffer), None);
}

#[test]
fn buffers_of_the_drawing_objects() {
    assert_eq!(
        buffer_info(ResourceKind::ControlPointsBuffer),
        Some(BufferInfo {
            usage: BufferUsage::Storage,
            reader: BufferReader::VertexShader,
            place: BufferPlace::DeviceOnly,
            transfer_target: true,
            staged: true
        })
    );
    assert_eq!(
        buffer_info(ResourceKind::PatchesBuffer),
        Some(BufferInfo {
            usage: BufferUsage::Index,
            reader: BufferReader::VertexInput,
            place: BufferPlace::DeviceOnly,
            transfer_target: true,
            staged: true
        })
    );
    assert_eq!(
        buffer_info(ResourceKind::InstancesBuffer),
        Some(BufferInfo {
            usage: BufferUsage::Storage,
            reader: BufferReader::TessellationEvaluationShader,
            place: BufferPlace::DeviceOnly,
            transfer_target: true,
            staged: true
        })
    );
    assert_eq!(
        buffer_info(ResourceKind::UniformBuffer),
        Some(BufferInfo {
            usage: BufferUsage::Uniform,
            reader: BufferReader::TessellationEvaluationShader,
            place: BufferPlace::HostToDevice,
            transfer_target: false,
            staged: false
        })
    );
    assert_eq!(buffer_info(ResourceKind::VertexShader), None);
    assert_eq!(buffer_info(ResourceKind::Buffer), None);
}

#[test]
fn staging_buffer_is_a_transfer_source_in_host_memory() {
    assert_eq!(
        staging_info(),
        StagingInfo {
            transfer_source: true,
            place: BufferPlace::HostToDevice
        }
    );
}
