//! Why setup, negotiation or a resize stopped.

use crate::resource::ResourceKind;
use crate::text::{decimal, decimal_digits};
use vstd::prelude::*;
use vstd::string::*;

verus! {

/// The first failure of a setup, negotiation or resize.
#[derive(Debug, PartialEq, Eq)]
pub enum Error {
    /// The loader could not report the instance API version.
    EnumerateInstanceVersion,
    /// The instance API version is below 1.2.
    InstanceVersionTooLow,
    /// The loader could not list the instance extensions.
    EnumerateInstanceExtensions,
    /// The named required instance extension is not offered.
    MissingInstanceExtension(String),
    /// The window system could not say which instance extensions it needs.
    EnumerateRequiredExtensions,
    /// The physical devices could not be listed.
    EnumeratePhysicalDevices,
    /// No physical device passed every check.
    NoSuitableDevice,
    /// The device's API version is below 1.2.
    DeviceVersionTooLow,
    /// The device has no tessellation shader stage.
    NoTessellationShader,
    /// The device cannot draw polygons as lines or points.
    NoFillModeNonSolid,
    /// The device's extensions could not be listed.
    EnumerateDeviceExtensions,
    /// The named required device extension is not offered.
    MissingDeviceExtension(String),
    /// The surface formats could not be queried.
    SurfaceFormats,
    /// The surface reports no format at all.
    NoSurfaceFormat,
    /// The present modes could not be queried, or there are none.
    PresentModes,
    /// Presentation support of a queue family could not be queried.
    SurfaceSupport,
    /// No queue family has graphics capability and can present.
    NoGraphicsPresentQueue,
    /// None of the candidate depth formats can be a depth-stencil attachment.
    NoDepthFormat,
    /// The surface capabilities could not be queried.
    SurfaceCapabilities,
    /// The images of the swapchain could not be fetched.
    SwapchainImages,
    /// The construction step `kind`, at position `index` of its series,
    /// failed.
    Create { kind: ResourceKind, index: usize },
    /// The answer handed in does not belong to the request that was pending.
    UnexpectedReply,
}

/// What is said of a failed construction step, before any series position.
pub open spec fn failure_text(kind: ResourceKind) -> Seq<char> {
    match kind {
        ResourceKind::Instance => "failed to create instance"@,
        ResourceKind::Surface => "failed to create surface"@,
        ResourceKind::DeviceSelection => "failed to find suitable device"@,
        ResourceKind::Device => "failed to create device"@,
        ResourceKind::Allocator => "failed to create allocator"@,
        ResourceKind::Swapchain => "failed to create swapchain"@,
        ResourceKind::SwapchainImageView => "failed to create image view"@,
        ResourceKind::DepthImage => "failed to create depth buffer image"@,
        ResourceKind::DepthMemory => "failed to allocate depth buffer image memory"@,
        ResourceKind::DepthBinding => "failed to bind depth buffer image memory"@,
        ResourceKind::DepthView => "failed to create depth buffer image view"@,
        ResourceKind::StagingBuffer => "failed to create staging buffer"@,
        ResourceKind::StagingMemory => "failed to allocate staging buffer memory"@,
        ResourceKind::StagingBinding => "failed to bind staging buffer memory"@,
        ResourceKind::StagingFill => "failed to fill staging buffer"@,
        ResourceKind::Buffer => "failed to create buffer"@,
        ResourceKind::BufferMemory => "failed to allocate buffer memory"@,
        ResourceKind::BufferBinding => "failed to bind buffer memory"@,
        ResourceKind::Upload => "failed to upload buffer"@,
        ResourceKind::VertexShader => "failed to create vertex shader"@,
        ResourceKind::TessEvalShader => "failed to create tessellation evaluation shader"@,
        ResourceKind::TessControlShader => "failed to create tessellation control shader"@,
        ResourceKind::FragmentShader => "failed to create fragment shader"@,
        ResourceKind::ControlPointsBuffer => "failed to create control points buffer"@,
        ResourceKind::PatchesBuffer => "failed to create patches buffer"@,
        ResourceKind::InstancesBuffer => "failed to create instances buffer"@,
        ResourceKind::UniformBuffer => "failed to create uniform buffer"@,
        ResourceKind::DescriptorSetLayout => "failed to create descriptor set layout"@,
        ResourceKind::PipelineLayout => "failed to create pipeline layout"@,
        ResourceKind::RenderPass => "failed to create render pass"@,
        ResourceKind::SolidPipeline => "failed to create pipelines"@,
        ResourceKind::WireframePipeline => "failed to create pipelines"@,
        ResourceKind::Framebuffer => "failed to create framebuffer"@,
        ResourceKind::CommandPool => "failed to create command pool"@,
        ResourceKind::DescriptorPool => "failed to create descriptor pool"@,
        ResourceKind::Fence => "failed to create fence"@,
    }
}

/// The text of a failed construction step: what failed and, for a step of a
/// numbered series, a space and the position in decimal.
pub open spec fn create_failure_text(kind: ResourceKind, index: usize) -> Seq<char> {
    if kind.spec_is_numbered() {
        failure_text(kind) + " "@ + decimal_digits(index as nat)
    } else {
        failure_text(kind)
    }
}

/// The text of an error.
pub open spec fn message_text(e: Error) -> Seq<char> {
    match e {
        Error::EnumerateInstanceVersion => "failed to enumerate instance version"@,
        Error::InstanceVersionTooLow => "minimum supported vulkan api version is 1.2.0"@,
        Error::EnumerateInstanceExtensions => "failed to enumerate instance extension properties"@,
        Error::MissingInstanceExtension(name) => "instance extension \""@ + name@
            + "\" is not supported"@,
        Error::EnumerateRequiredExtensions => "failed to enumerate required instance extensions"@,
        Error::EnumeratePhysicalDevices => "failed to enumerate physical devices"@,
        Error::NoSuitableDevice => "failed to find suitable device"@,
        Error::DeviceVersionTooLow => "the device does not support API version 1.2.0"@,
        Error::NoTessellationShader => "the device does not support tesselation shader"@,
        Error::NoFillModeNonSolid => "the device does not support fill mode non solid"@,
        Error::EnumerateDeviceExtensions => "failed to enumerate device extension properties"@,
        Error::MissingDeviceExtension(name) => "device extension \""@ + name@
            + "\" is not supported"@,
        Error::SurfaceFormats => "failed to get physical device surface formats"@,
        Error::NoSurfaceFormat => "the surface reports no format"@,
        Error::PresentModes => "failed to get physical device surface present modes"@,
        Error::SurfaceSupport => "failed to get physical device surface_support"@,
        Error::NoGraphicsPresentQueue => "failed to find graphics queue with present support"@,
        Error::NoDepthFormat => "failed to find depth format"@,
        Error::SurfaceCapabilities => "failed to get physical device surface capabilities"@,
        Error::SwapchainImages => "failed to get swapchain images"@,
        Error::Create { kind, index } => create_failure_text(kind, index),
        Error::UnexpectedReply => "the reply does not answer the pending request"@,
    }
}

fn failure_str(kind: ResourceKind) -> (s: &'static str)
    ensures
        s@ == failure_text(kind),
{
    match kind {
        ResourceKind::Instance => "failed to create instance",
        ResourceKind::Surface => "failed to create surface",
        ResourceKind::DeviceSelection => "failed to find suitable device",
        ResourceKind::Device => "failed to create device",
        ResourceKind::Allocator => "failed to create allocator",
        ResourceKind::Swapchain => "failed to create swapchain",
        ResourceKind::SwapchainImageView => "failed to create image view",
        ResourceKind::DepthImage => "failed to create depth buffer image",
        ResourceKind::DepthMemory => "failed to allocate depth buffer image memory",
        ResourceKind::DepthBinding => "failed to bind depth buffer image memory",
        ResourceKind::DepthView => "failed to create depth buffer image view",
        ResourceKind::StagingBuffer => "failed to create staging buffer",
        ResourceKind::StagingMemory => "failed to allocate staging buffer memory",
        ResourceKind::StagingBinding => "failed to bind staging buffer memory",
        ResourceKind::StagingFill => "failed to fill staging buffer",
        ResourceKind::Buffer => "failed to create buffer",
        ResourceKind::BufferMemory => "failed to allocate buffer memory",
        ResourceKind::BufferBinding => "failed to bind buffer memory",
        ResourceKind::Upload => "failed to upload buffer",
        ResourceKind::VertexShader => "failed to create vertex shader",
        ResourceKind::TessEvalShader => "failed to create tessellation evaluation shader",
        ResourceKind::TessControlShader => "failed to create tessellation control shader",
        ResourceKind::FragmentShader => "failed to create fragment shader",
        ResourceKind::ControlPointsBuffer => "failed to create control points buffer",
        ResourceKind::PatchesBuffer => "failed to create patches buffer",
        ResourceKind::InstancesBuffer => "failed to create instances buffer",
        ResourceKind::UniformBuffer => "failed to create uniform buffer",
        ResourceKind::DescriptorSetLayout => "failed to create descriptor set layout",
        ResourceKind::PipelineLayout => "failed to create pipeline layout",
        ResourceKind::RenderPass => "failed to create render pass",
        ResourceKind::SolidPipeline => "failed to create pipelines",
        ResourceKind::WireframePipeline => "failed to create pipelines",
        ResourceKind::Framebuffer => "failed to create framebuffer",
        ResourceKind::CommandPool => "failed to create command pool",
        ResourceKind::DescriptorPool => "failed to create descriptor pool",
        ResourceKind::Fence => "failed to create fence",
    }
}

impl Error {
    /// A description of the failure for a person to read.
    pub fn message(&self) -> (text: String)
        ensures
            text@ == message_text(*self),
    {
        match self {
            Error::EnumerateInstanceVersion => String::from_str(
                "failed to enumerate instance version",
            ),
            Error::InstanceVersionTooLow => String::from_str(
                "minimum supported vulkan api version is 1.2.0",
            ),
            Error::EnumerateInstanceExtensions => String::from_str(
                "failed to enumerate instance extension properties",
            ),
            Error::MissingInstanceExtension(name) => {
                let text = String::from_str("instance extension \"").concat(name.as_str()).concat(
                    "\" is not supported",
                );
                text
            },
            Error::EnumerateRequiredExtensions => String::from_str(
                "failed to enumerate required instance extensions",
            ),
            Error::EnumeratePhysicalDevices => String::from_str(
                "failed to enumerate physical devices",
            ),
            Error::NoSuitableDevice => String::from_str("failed to find suitable device"),
            Error::DeviceVersionTooLow => String::from_str(
                "the device does not support API version 1.2.0",
            ),
            Error::NoTessellationShader => String::from_str(
                "the device does not support tesselation shader",
            ),
            Error::NoFillModeNonSolid => String::from_str(
                "the device does not support fill mode non solid",
            ),
            Error::EnumerateDeviceExtensions => String::from_str(
                "failed to enumerate device extension properties",
            ),
            Error::MissingDeviceExtension(name) => {
                let text = String::from_str("device extension \"").concat(name.as_str()).concat(
                    "\" is not supported",
                );
                text
            },
            Error::SurfaceFormats => String::from_str(
                "failed to get physical device surface formats",
            ),
            Error::NoSurfaceFormat => String::from_str("the surface reports no format"),
            Error::PresentModes => String::from_str(
                "failed to get physical device surface present modes",
            ),
            Error::SurfaceSupport => String::from_str(
                "failed to get physical device surface_support",
            ),
            Error::NoGraphicsPresentQueue => String::from_str(
                "failed to find graphics queue with present support",
            ),
            Error::NoDepthFormat => String::from_str("failed to find depth format"),
            Error::SurfaceCapabilities => String::from_str(
                "failed to get physical device surface capabilities",
            ),
            Error::SwapchainImages => String::from_str("failed to get swapchain images"),
            Error::Create { kind, index } => {
                if kind.is_numbered() {
                    let number = decimal(*index);
                    String::from_str(failure_str(*kind)).concat(" ").concat(number.as_str())
                } else {
                    String::from_str(failure_str(*kind))
                }
            },
            Error::UnexpectedReply => String::from_str(
                "the reply does not answer the pending request",
            ),
        }
    }
}

} // verus!
