use vulkan_base::error::Error;
use vulkan_base::resource::ResourceKind;
use vulkan_base::text::decimal;

fn create(kind: ResourceKind, index: usize) -> String {
    Error::Create { kind, index }.message()
}

#[test]
fn decimal_text() {
    assert_eq!(decimal(0), "0");
    assert_eq!(decimal(7), "7");
    assert_eq!(decimal(10), "10");
    assert_eq!(decimal(109), "109");
    assert_eq!(decimal(1234567890), "1234567890");
    assert_eq!(decimal(usize::MAX), usize::MAX.to_string());
}

#[test]
fn query_messages() {
    assert_eq!(
        Error::EnumerateInstanceVersion.message(),
        "failed to enumerate instance version"
    );
    assert_eq!(
        Error::InstanceVersionTooLow.message(),
        "minimum supported vulkan api version is 1.2.0"
    );
    assert_eq!(
        Error::EnumerateInstanceExtensions.message(),
        "failed to enumerate instance extension properties"
    );
    assert_eq!(
        Error::EnumerateRequiredExtensions.message(),
        "failed to enumerate required instance extensions"
    );
    assert_eq!(
        Error::EnumeratePhysicalDevices.message(),
        "failed to enumerate physical devices"
    );
    assert_eq!(
        Error::EnumerateDeviceExtensions.message(),
        "failed to enumerate device extension properties"
    );
    assert_eq!(
        Error::SurfaceFormats.message(),
        "failed to get physical device surface formats"
    );
    assert_eq!(
        Error::PresentModes.message(),
        "failed to get physical device surface present modes"
    );
    assert_eq!(
        Error::SurfaceSupport.message(),
        "failed to get physical device surface_support"
    );
    assert_eq!(
        Error::SurfaceCapabilities.message(),
        "failed to get physical device surface capabilities"
    );
    assert_eq!(
        Error::SwapchainImages.message(),
        "failed to get swapchain images"
    );
    assert_eq!(
        Error::UnexpectedReply.message(),
        "the reply does not answer the pending request"
    );
}

#[test]
fn capability_messages_name_what_is_missing() {
    assert_eq!(
        Error::MissingInstanceExtension("VK_KHR_surface".to_string()).message(),
        "instance extension \"VK_KHR_surface\" is not supported"
    );
    assert_eq!(
        Error::MissingDeviceExtension("VK_KHR_swapchain".to_string()).message(),
        "device extension \"VK_KHR_swapchain\" is not supported"
    );
    assert_eq!(
        Error::MissingDeviceExtension(String::new()).message(),
        "device extension \"\" is not supported"
    );
    assert_eq!(
        Error::NoSuitableDevice.message(),
        "failed to find suitable device"
    );
    assert_eq!(
        Error::DeviceVersionTooLow.message(),
        "the device does not support API version 1.2.0"
    );
    assert_eq!(
        Error::NoTessellationShader.message(),
        "the device does not support tesselation shader"
    );
    assert_eq!(
        Error::NoFillModeNonSolid.message(),
        "the device does not support fill mode non solid"
    );
    assert_eq!(
        Error::NoSurfaceFormat.message(),
        "the surface reports no format"
    );
    assert_eq!(
        Error::NoGraphicsPresentQueue.message(),
        "failed to find graphics queue with present support"
    );
    assert_eq!(Error::NoDepthFormat.message(), "failed to find depth format");
}

#[test]
fn creation_messages() {
    assert_eq!(create(ResourceKind::Instance, 0), "failed to create instance");
    assert_eq!(create(ResourceKind::Surface, 0), "failed to create surface");
    assert_eq!(
        create(ResourceKind::DeviceSelection, 0),
        "failed to find suitable device"
    );
    assert_eq!(create(ResourceKind::Device, 0), "failed to create device");
    assert_eq!(
        create(ResourceKind::Allocator, 0),
        "failed to create allocator"
    );
    assert_eq!(
        create(ResourceKind::Swapchain, 0),
        "failed to create swapchain"
    );
    assert_eq!(
        create(ResourceKind::DepthImage, 0),
        "failed to create depth buffer image"
    );
    assert_eq!(
        create(ResourceKind::DepthMemory, 0),
        "failed to allocate depth buffer image memory"
    );
    assert_eq!(
        create(ResourceKind::DepthBinding, 0),
        "failed to bind depth buffer image memory"
    );
    assert_eq!(
        create(ResourceKind::DepthView, 0),
        "failed to create depth buffer image view"
    );
    assert_eq!(
        create(ResourceKind::StagingBuffer, 0),
        "failed to create staging buffer"
    );
    assert_eq!(
        create(ResourceKind::StagingMemory, 0),
        "failed to allocate staging buffer memory"
    );
    assert_eq!(
        create(ResourceKind::StagingBinding, 0),
        "failed to bind staging buffer memory"
    );
    assert_eq!(
        create(ResourceKind::StagingFill, 0),
        "failed to fill staging buffer"
    );
    assert_eq!(create(ResourceKind::Buffer, 0), "failed to create buffer");
    assert_eq!(
        create(ResourceKind::BufferMemory, 0),
        "failed to allocate buffer memory"
    );
    assert_eq!(
        create(ResourceKind::BufferBinding, 0),
        "failed to bind buffer memory"
    );
    assert_eq!(create(ResourceKind::Upload, 0), "failed to upload buffer");
    assert_eq!(
        create(ResourceKind::VertexShader, 0),
        "failed to create vertex shader"
    );
    assert_eq!(
        create(ResourceKind::TessEvalShader, 0),
        "failed to create tessellation evaluation shader"
    );
    assert_eq!(
        create(ResourceKind::TessControlShader, 0),
        "failed to create tessellation control shader"
    );
    assert_eq!(
        create(ResourceKind::FragmentShader, 0),
        "failed to create fragment shader"
    );
    assert_eq!(
        create(ResourceKind::ControlPointsBuffer, 0),
        "failed to create control points buffer"
    );
    assert_eq!(
        create(ResourceKind::PatchesBuffer, 0),
        "failed to create patches buffer"
    );
    assert_eq!(
        create(ResourceKind::InstancesBuffer, 0),
        "failed to create instances buffer"
    );
    assert_eq!(
        create(ResourceKind::DescriptorSetLayout, 0),
        "failed to create descriptor set layout"
    );
    assert_eq!(
        create(ResourceKind::PipelineLayout, 0),
        "failed to create pipeline layout"
    );
    assert_eq!(
        create(ResourceKind::RenderPass, 0),
        "failed to create render pass"
    );
    assert_eq!(
        create(ResourceKind::SolidPipeline, 0),
        "failed to create pipelines"
    );
    assert_eq!(
        create(ResourceKind::WireframePipeline, 0),
        "failed to create pipelines"
    );
}

#[test]
fn creation_messages_of_series_carry_the_position() {
    assert_eq!(
        create(ResourceKind::SwapchainImageView, 2),
        "failed to create image view 2"
    );
    assert_eq!(
        create(ResourceKind::UniformBuffer, 0),
        "failed to create uniform buffer 0"
    );
    assert_eq!(
        create(ResourceKind::Framebuffer, 10),
        "failed to create framebuffer 10"
    );
    assert_eq!(
        create(ResourceKind::CommandPool, 1),
        "failed to create command pool 1"
    );
    assert_eq!(
        create(ResourceKind::DescriptorPool, 3),
        "failed to create descriptor pool 3"
    );
    assert_eq!(create(ResourceKind::Fence, 123), "failed to create fence 123");
}

#[test]
fn position_is_left_out_outside_a_series() {
    assert_eq!(create(ResourceKind::Instance, 5), "failed to create instance");
    assert_eq!(
        create(ResourceKind::RenderPass, 9),
        "failed to create render pass"
    );
}
