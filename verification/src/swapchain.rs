//! The swapchain and its resize protocol.
//!
//! A swapchain is not there, live, being resized, or torn down. It is not
//! there before its first build, which is a resize from nothing. A resize
//! takes the live state with it and hands back a live state when it ends:
//! the new one, or the one it took.
//!
//! A resize builds a complete new set of objects (swapchain, one view per
//! image, depth buffer) beside the live set. Only when the last of them
//! exists is the new set swapped in and the old set retired. A failure
//! destroys what the resize itself has built, the latest first, and hands
//! the live set back untouched.

use crate::bindings;
use crate::error::Error;
use crate::resource::{Resource, ResourceKind};
use crate::scope::{Scope, rollback_order};
use crate::surface::{
    Extent2D,
    Extent3D,
    SurfaceCapabilities,
    SurfaceFormat,
    get_image_count,
    get_surface_extent,
    image_count,
    surface_extent,
};
use vstd::prelude::*;

verus! {

/// The objects and choices of a context that a resize reads and leaves as
/// they are.
#[derive(Clone, Copy, Debug, PartialEq, Eq, Structural)]
pub struct Context {
    pub instance: u64,
    pub surface: u64,
    pub physical_device: u64,
    /// The packed API version of the physical device.
    pub api_version: u32,
    pub surface_format: SurfaceFormat,
    pub present_mode: i32,
    pub depth_format: i32,
    pub queue_family: u32,
    pub device: u64,
    pub queue: u64,
    pub allocator: u64,
}

/// An image with its view and the allocation that backs it.
#[derive(Clone, Copy, Debug, PartialEq, Eq, Structural)]
pub struct MemImage {
    pub image: u64,
    pub view: u64,
    pub extent: Extent3D,
    pub allocation: u64,
}

/// What a swapchain is created with, as far as it is decided here.
#[derive(Clone, Copy, Debug, PartialEq, Eq, Structural)]
pub struct SwapchainCreateInfo {
    pub surface: u64,
    pub min_image_count: u32,
    pub format: SurfaceFormat,
    pub extent: Extent2D,
    pub array_layers: u32,
    pub usage: ImageUsage,
    /// Whether one queue family at a time owns the images.
    pub exclusive: bool,
    pub pre_transform: u32,
    pub composite_alpha: CompositeAlpha,
    pub present_mode: i32,
    /// Whether pixels that are hidden may be left out.
    pub clipped: bool,
    /// The swapchain that is being replaced, as a hint for reuse; the null
    /// handle where there is none.
    pub old_swapchain: u64,
}

/// The dimensions of an image or of a view.
#[derive(Clone, Copy, Debug, PartialEq, Eq, Structural)]
pub enum Dimensions {
    Two,
}

/// The part of an image that a view shows.
#[derive(Clone, Copy, Debug, PartialEq, Eq, Structural)]
pub enum ImageAspect {
    Color,
    Depth,
}

/// How a view maps the components of its image.
#[derive(Clone, Copy, Debug, PartialEq, Eq, Structural)]
pub enum Swizzle {
    /// Every component is itself.
    Identity,
    /// Red, green, blue and alpha are named one by one, each as itself.
    Rgba,
}

/// How the texels of an image are laid out in memory.
#[derive(Clone, Copy, Debug, PartialEq, Eq, Structural)]
pub enum Tiling {
    Optimal,
}

/// What an image is used as.
#[derive(Clone, Copy, Debug, PartialEq, Eq, Structural)]
pub enum ImageUsage {
    ColorAttachment,
    DepthStencilAttachment,
}

/// How the alpha of a presented image is treated.
#[derive(Clone, Copy, Debug, PartialEq, Eq, Structural)]
pub enum CompositeAlpha {
    /// The image is opaque.
    Opaque,
}

/// Where memory is allocated.
#[derive(Clone, Copy, Debug, PartialEq, Eq, Structural)]
pub enum MemoryPlace {
    /// Memory of the device that the host does not reach.
    DeviceOnly,
}

/// What an image view is created with.
#[derive(Clone, Copy, Debug, PartialEq, Eq, Structural)]
pub struct ImageViewInfo {
    pub image: u64,
    pub dimensions: Dimensions,
    pub format: i32,
    pub components: Swizzle,
    pub aspect: ImageAspect,
    pub base_mip_level: u32,
    pub level_count: u32,
    pub base_array_layer: u32,
    pub layer_count: u32,
}

/// What an image is created with.
#[derive(Clone, Copy, Debug, PartialEq, Eq, Structural)]
pub struct ImageInfo {
    pub dimensions: Dimensions,
    pub format: i32,
    pub extent: Extent3D,
    pub mip_levels: u32,
    pub array_layers: u32,
    pub samples: u32,
    pub tiling: Tiling,
    pub usage: ImageUsage,
    /// Whether one queue family at a time owns the image.
    pub exclusive: bool,
    /// Whether the image starts with a layout; it starts with none.
    pub initialized: bool,
}

/// What the memory of an image is allocated with.
#[derive(Clone, Copy, Debug, PartialEq, Eq, Structural)]
pub struct MemoryInfo {
    /// The image whose memory requirements the allocation meets.
    pub image: u64,
    pub place: MemoryPlace,
    /// Whether the image is laid out linearly; an image with optimal tiling
    /// is not.
    pub linear: bool,
}

/// The live swapchain with everything that hangs on it.
#[derive(Debug, PartialEq, Eq)]
pub struct SwapchainState {
    pub capabilities: SurfaceCapabilities,
    pub extent: Extent2D,
    pub swapchain: u64,
    /// The images of the swapchain. They belong to it and are not destroyed
    /// one by one.
    pub images: Vec<u64>,
    /// One view per image, each destroyed on its own.
    pub image_views: Vec<u64>,
    pub depth_buffer: MemImage,
}

/// The mathematical content of a `SwapchainState`.
pub struct SwapchainModel {
    pub capabilities: SurfaceCapabilities,
    pub extent: Extent2D,
    pub swapchain: u64,
    pub images: Seq<u64>,
    pub image_views: Seq<u64>,
    pub depth_buffer: MemImage,
}

impl View for SwapchainState {
    type V = SwapchainModel;

    open spec fn view(&self) -> SwapchainModel {
        SwapchainModel {
            capabilities: self.capabilities,
            extent: self.extent,
            swapchain: self.swapchain,
            images: self.images@,
            image_views: self.image_views@,
            depth_buffer: self.depth_buffer,
        }
    }
}

impl SwapchainModel {
    /// Every image has its view and no view is left over.
    pub open spec fn wf(self) -> bool {
        self.image_views.len() == self.images.len()
    }
}

/// The content of a swapchain state that may not be there yet.
pub open spec fn live_view(live: Option<SwapchainState>) -> Option<SwapchainModel> {
    match live {
        Some(state) => Some(state@),
        None => None,
    }
}

/// The stages of a resize, in order.
#[derive(Clone, Copy, Debug, PartialEq, Eq, Structural)]
pub enum ResizeStage {
    /// Waiting for the device to go idle.
    Idle,
    /// Asking what the surface can do.
    Capabilities,
    /// Creating the new swapchain.
    Swapchain,
    /// Fetching the images of the new swapchain.
    Images,
    /// Creating the views, one per image.
    Views,
    /// Creating the image of the depth buffer.
    DepthImage,
    /// Allocating the memory of the depth buffer.
    DepthMemory,
    /// Binding the memory to the image.
    DepthBinding,
    /// Creating the view of the depth buffer.
    DepthView,
}

/// What the caller is asked to do next.
#[derive(Clone, Copy, Debug, PartialEq, Eq, Structural)]
pub enum ResizeRequest {
    /// Wait until the device is idle; what the wait gives is not read.
    WaitIdle,
    /// Ask what the surface can do on the physical device.
    QueryCapabilities { physical_device: u64, surface: u64 },
    CreateSwapchain(SwapchainCreateInfo),
    QueryImages { swapchain: u64 },
    /// Create the view of the image at position `index`.
    CreateImageView { index: usize, info: ImageViewInfo },
    CreateDepthImage(ImageInfo),
    AllocateDepthMemory(MemoryInfo),
    /// Bind the allocation to the image, at the memory and the offset of
    /// the allocation.
    BindDepthMemory { image: u64, allocation: u64 },
    CreateDepthView(ImageViewInfo),
}

/// What the caller reports back.
#[derive(Debug, PartialEq, Eq)]
pub enum ResizeReply {
    /// The request was carried out and gives nothing back.
    Done,
    /// The request failed.
    Failed,
    /// The capabilities of the surface.
    Capabilities(SurfaceCapabilities),
    /// The handle of the object that was created.
    Created(u64),
    /// The images of the swapchain.
    Images(Vec<u64>),
}

/// The mathematical content of a resize in progress.
pub struct ResizeModel {
    pub context: Context,
    /// The size of the window in pixels.
    pub window: Extent2D,
    /// The live state that the resize began with; none on the first build.
    pub previous: Option<SwapchainModel>,
    pub stage: ResizeStage,
    pub capabilities: SurfaceCapabilities,
    pub extent: Extent2D,
    pub swapchain: u64,
    pub images: Seq<u64>,
    pub views: Seq<u64>,
    pub depth_image: u64,
    pub depth_allocation: u64,
}

/// How a resize stands after a reply.
pub enum ResizeOutcome {
    /// The next request is pending.
    Continue(ResizeModel),
    /// The new state is live. `retire` lists the objects of the old state,
    /// to be destroyed in that order.
    Finished { context: Context, state: SwapchainModel, retire: Seq<Resource> },
    /// The resize is off. `destroy` lists what it had built, to be destroyed
    /// in that order; `previous` is the live state as it was.
    Failed {
        error: Error,
        destroy: Seq<Resource>,
        context: Context,
        previous: Option<SwapchainModel>,
    },
}

/// The views as objects, numbered by image.
pub open spec fn view_resources(views: Seq<u64>) -> Seq<Resource> {
    Seq::new(
        views.len(),
        |i: int|
            Resource { kind: ResourceKind::SwapchainImageView, index: i as usize, handle: views[i] },
    )
}

/// A single object outside any series.
pub open spec fn single(kind: ResourceKind, handle: u64) -> Resource {
    Resource { kind, index: 0, handle }
}

/// The extent of the depth buffer that goes with a swapchain extent.
pub open spec fn depth_extent(extent: Extent2D) -> Extent3D {
    Extent3D { width: extent.width, height: extent.height, depth: 1 }
}

/// What the view of a swapchain image is created with: a view in two
/// dimensions of the colour of the first level and the first layer, in the
/// format of the surface, every component as itself.
pub open spec fn color_view(image: u64, format: i32) -> ImageViewInfo {
    ImageViewInfo {
        image,
        dimensions: Dimensions::Two,
        format,
        components: Swizzle::Identity,
        aspect: ImageAspect::Color,
        base_mip_level: 0,
        level_count: 1,
        base_array_layer: 0,
        layer_count: 1,
    }
}

/// What the image of a depth buffer is created with: an image in two
/// dimensions with the extent of the swapchain, one level, one layer and
/// one sample, with optimal tiling, for use as depth-stencil attachment.
/// These are the tiling and the use that the depth format was chosen for.
pub open spec fn depth_image(extent: Extent2D, format: i32) -> ImageInfo {
    ImageInfo {
        dimensions: Dimensions::Two,
        format,
        extent: depth_extent(extent),
        mip_levels: 1,
        array_layers: 1,
        samples: 1,
        tiling: Tiling::Optimal,
        usage: ImageUsage::DepthStencilAttachment,
        exclusive: true,
        initialized: false,
    }
}

/// What the memory of a depth buffer is allocated with: memory of the
/// device alone, for an image that is not linear.
pub open spec fn depth_memory(image: u64) -> MemoryInfo {
    MemoryInfo { image, place: MemoryPlace::DeviceOnly, linear: false }
}

/// What the view of a depth buffer is created with: a view in two
/// dimensions of the depth of the first level and the first layer, in the
/// depth format.
pub open spec fn depth_view(image: u64, format: i32) -> ImageViewInfo {
    ImageViewInfo {
        image,
        dimensions: Dimensions::Two,
        format,
        components: Swizzle::Rgba,
        aspect: ImageAspect::Depth,
        base_mip_level: 0,
        level_count: 1,
        base_array_layer: 0,
        layer_count: 1,
    }
}

/// Says what the view of a swapchain image is created with.
pub fn swapchain_image_view_info(image: u64, format: i32) -> (info: ImageViewInfo)
    ensures
        info == color_view(image, format),
{
    ImageViewInfo {
        image,
        dimensions: Dimensions::Two,
        format,
        components: Swizzle::Identity,
        aspect: ImageAspect::Color,
        base_mip_level: 0,
        level_count: 1,
        base_array_layer: 0,
        layer_count: 1,
    }
}

/// Says what the image of a depth buffer is created with.
pub fn depth_image_info(extent: Extent2D, format: i32) -> (info: ImageInfo)
    ensures
        info == depth_image(extent, format),
{
    ImageInfo {
        dimensions: Dimensions::Two,
        format,
        extent: Extent3D { width: extent.width, height: extent.height, depth: 1 },
        mip_levels: 1,
        array_layers: 1,
        samples: 1,
        tiling: Tiling::Optimal,
        usage: ImageUsage::DepthStencilAttachment,
        exclusive: true,
        initialized: false,
    }
}

/// Says what the memory of a depth buffer is allocated with.
pub fn depth_memory_info(image: u64) -> (info: MemoryInfo)
    ensures
        info == depth_memory(image),
{
    MemoryInfo { image, place: MemoryPlace::DeviceOnly, linear: false }
}

/// Says what the view of a depth buffer is created with.
pub fn depth_view_info(image: u64, format: i32) -> (info: ImageViewInfo)
    ensures
        info == depth_view(image, format),
{
    ImageViewInfo {
        image,
        dimensions: Dimensions::Two,
        format,
        components: Swizzle::Rgba,
        aspect: ImageAspect::Depth,
        base_mip_level: 0,
        level_count: 1,
        base_array_layer: 0,
        layer_count: 1,
    }
}

/// The swapchain handle that a resize passes on as a hint.
pub open spec fn old_swapchain(previous: Option<SwapchainModel>) -> u64 {
    match previous {
        Some(state) => state.swapchain,
        None => bindings::NULL_HANDLE,
    }
}

/// The objects of a retired state in the order of their destruction: the
/// swapchain (unless null), the views by image, then image, view and
/// memory of the depth buffer.
pub open spec fn retire_order(previous: Option<SwapchainModel>) -> Seq<Resource> {
    match previous {
        None => Seq::empty(),
        Some(state) => {
            let chain = if state.swapchain != bindings::NULL_HANDLE {
                seq![single(ResourceKind::Swapchain, state.swapchain)]
            } else {
                Seq::empty()
            };
            chain + view_resources(state.image_views) + seq![
                single(ResourceKind::DepthImage, state.depth_buffer.image),
                single(ResourceKind::DepthView, state.depth_buffer.view),
                single(ResourceKind::DepthMemory, state.depth_buffer.allocation),
            ]
        },
    }
}

/// What a swapchain is created with: the image count that the surface's
/// limits allow, images of one layer for use as colour attachment, owned by
/// one queue family at a time, the surface's current transform, opaque,
/// clipped, and the swapchain that it replaces as a hint.
pub open spec fn swapchain_create_info(
    old_swapchain: u64,
    surface: u64,
    capabilities: SurfaceCapabilities,
    surface_format: SurfaceFormat,
    surface_extent: Extent2D,
    present_mode: i32,
) -> SwapchainCreateInfo {
    SwapchainCreateInfo {
        surface,
        min_image_count: image_count(capabilities),
        format: surface_format,
        extent: surface_extent,
        array_layers: 1,
        usage: ImageUsage::ColorAttachment,
        exclusive: true,
        pre_transform: capabilities.current_transform,
        composite_alpha: CompositeAlpha::Opaque,
        present_mode,
        clipped: true,
        old_swapchain,
    }
}

/// Says what a swapchain is created with. The old swapchain is only named
/// as a hint: it stays alive until the new one exists.
pub fn create_swapchain(
    old_swapchain: u64,
    surface: u64,
    surface_capabilities: &SurfaceCapabilities,
    surface_format: &SurfaceFormat,
    surface_extent: Extent2D,
    present_mode: i32,
) -> (info: SwapchainCreateInfo)
    ensures
        info == swapchain_create_info(
            old_swapchain,
            surface,
            *surface_capabilities,
            *surface_format,
            surface_extent,
            present_mode,
        ),
{
    SwapchainCreateInfo {
        surface,
        min_image_count: get_image_count(surface_capabilities),
        format: *surface_format,
        extent: surface_extent,
        array_layers: 1,
        usage: ImageUsage::ColorAttachment,
        exclusive: true,
        pre_transform: surface_capabilities.current_transform,
        composite_alpha: CompositeAlpha::Opaque,
        present_mode,
        clipped: true,
        old_swapchain,
    }
}

impl ResizeModel {
    /// The start of a resize.
    pub open spec fn start(
        context: Context,
        window: Extent2D,
        previous: Option<SwapchainModel>,
    ) -> ResizeModel {
        ResizeModel {
            context,
            window,
            previous,
            stage: ResizeStage::Idle,
            capabilities: SurfaceCapabilities {
                min_image_count: 0,
                max_image_count: 0,
                current_extent: Extent2D { width: 0, height: 0 },
                min_image_extent: Extent2D { width: 0, height: 0 },
                max_image_extent: Extent2D { width: 0, height: 0 },
                current_transform: 0,
            },
            extent: Extent2D { width: 0, height: 0 },
            swapchain: bindings::NULL_HANDLE,
            images: Seq::empty(),
            views: Seq::empty(),
            depth_image: bindings::NULL_HANDLE,
            depth_allocation: bindings::NULL_HANDLE,
        }
    }

    /// While views are being made, one is still missing; from the depth
    /// buffer on, every image has its view.
    pub open spec fn wf(self) -> bool {
        match self.stage {
            ResizeStage::Idle | ResizeStage::Capabilities | ResizeStage::Swapchain
            | ResizeStage::Images => true,
            ResizeStage::Views => self.views.len() < self.images.len(),
            _ => self.views.len() == self.images.len(),
        }
    }

    /// What this resize has built so far, in the order of construction.
    pub open spec fn built(self) -> Seq<Resource> {
        let chain = seq![single(ResourceKind::Swapchain, self.swapchain)];
        let views = view_resources(self.views);
        match self.stage {
            ResizeStage::Idle | ResizeStage::Capabilities | ResizeStage::Swapchain => Seq::empty(),
            ResizeStage::Images => chain,
            ResizeStage::Views | ResizeStage::DepthImage => chain + views,
            ResizeStage::DepthMemory => chain + views + seq![
                single(ResourceKind::DepthImage, self.depth_image),
            ],
            ResizeStage::DepthBinding | ResizeStage::DepthView => chain + views + seq![
                single(ResourceKind::DepthImage, self.depth_image),
                single(ResourceKind::DepthMemory, self.depth_allocation),
            ],
        }
    }

    /// What the new swapchain is created with.
    pub open spec fn create_info(self) -> SwapchainCreateInfo {
        swapchain_create_info(
            old_swapchain(self.previous),
            self.context.surface,
            self.capabilities,
            self.context.surface_format,
            self.extent,
            self.context.present_mode,
        )
    }

    /// The request that is pending.
    pub open spec fn request(self) -> ResizeRequest {
        match self.stage {
            ResizeStage::Idle => ResizeRequest::WaitIdle,
            ResizeStage::Capabilities => ResizeRequest::QueryCapabilities {
                physical_device: self.context.physical_device,
                surface: self.context.surface,
            },
            ResizeStage::Swapchain => ResizeRequest::CreateSwapchain(self.create_info()),
            ResizeStage::Images => ResizeRequest::QueryImages { swapchain: self.swapchain },
            ResizeStage::Views => ResizeRequest::CreateImageView {
                index: self.views.len() as usize,
                info: color_view(
                    self.images[self.views.len() as int],
                    self.context.surface_format.format,
                ),
            },
            ResizeStage::DepthImage => ResizeRequest::CreateDepthImage(
                depth_image(self.extent, self.context.depth_format),
            ),
            ResizeStage::DepthMemory => ResizeRequest::AllocateDepthMemory(
                depth_memory(self.depth_image),
            ),
            ResizeStage::DepthBinding => ResizeRequest::BindDepthMemory {
                image: self.depth_image,
                allocation: self.depth_allocation,
            },
            ResizeStage::DepthView => ResizeRequest::CreateDepthView(
                depth_view(self.depth_image, self.context.depth_format),
            ),
        }
    }

    /// The resize called off: what it built is destroyed, the latest first,
    /// and the live state is handed back as it was.
    pub open spec fn fail(self, error: Error) -> ResizeOutcome {
        ResizeOutcome::Failed {
            error,
            destroy: rollback_order(self.built()),
            context: self.context,
            previous: self.previous,
        }
    }

    /// The error of a reply that is no success of the pending request: the
    /// request's own error where the reply says that it failed, else the
    /// error of a reply out of turn.
    pub open spec fn refusal(self, reply: ResizeReply) -> Error {
        if reply is Failed {
            match self.stage {
                ResizeStage::Idle => Error::UnexpectedReply,
                ResizeStage::Capabilities => Error::SurfaceCapabilities,
                ResizeStage::Swapchain => Error::Create { kind: ResourceKind::Swapchain, index: 0 },
                ResizeStage::Images => Error::SwapchainImages,
                ResizeStage::Views => Error::Create {
                    kind: ResourceKind::SwapchainImageView,
                    index: self.views.len() as usize,
                },
                ResizeStage::DepthImage => Error::Create {
                    kind: ResourceKind::DepthImage,
                    index: 0,
                },
                ResizeStage::DepthMemory => Error::Create {
                    kind: ResourceKind::DepthMemory,
                    index: 0,
                },
                ResizeStage::DepthBinding => Error::Create {
                    kind: ResourceKind::DepthBinding,
                    index: 0,
                },
                ResizeStage::DepthView => Error::Create { kind: ResourceKind::DepthView, index: 0 },
            }
        } else {
            Error::UnexpectedReply
        }
    }

    /// The state that goes live when the view of the depth buffer exists.
    pub open spec fn finished_state(self, depth_view: u64) -> SwapchainModel {
        SwapchainModel {
            capabilities: self.capabilities,
            extent: self.extent,
            swapchain: self.swapchain,
            images: self.images,
            image_views: self.views,
            depth_buffer: MemImage {
                image: self.depth_image,
                view: depth_view,
                extent: depth_extent(self.extent),
                allocation: self.depth_allocation,
            },
        }
    }

    /// The protocol: how the resize stands after `reply` to the pending
    /// request.
    pub open spec fn next(self, reply: ResizeReply) -> ResizeOutcome {
        match (self.stage, reply) {
            (ResizeStage::Idle, _) => ResizeOutcome::Continue(
                ResizeModel { stage: ResizeStage::Capabilities, ..self },
            ),
            (ResizeStage::Capabilities, ResizeReply::Capabilities(capabilities)) => {
                ResizeOutcome::Continue(
                    ResizeModel {
                        stage: ResizeStage::Swapchain,
                        capabilities,
                        extent: surface_extent(self.window, capabilities),
                        ..self
                    },
                )
            },
            (ResizeStage::Swapchain, ResizeReply::Created(handle)) => ResizeOutcome::Continue(
                ResizeModel { stage: ResizeStage::Images, swapchain: handle, ..self },
            ),
            (ResizeStage::Images, ResizeReply::Images(images)) => ResizeOutcome::Continue(
                ResizeModel {
                    stage: if images@.len() == 0 {
                        ResizeStage::DepthImage
                    } else {
                        ResizeStage::Views
                    },
                    images: images@,
                    views: Seq::empty(),
                    ..self
                },
            ),
            (ResizeStage::Views, ResizeReply::Created(handle)) => ResizeOutcome::Continue(
                ResizeModel {
                    stage: if self.views.len() + 1 < self.images.len() {
                        ResizeStage::Views
                    } else {
                        ResizeStage::DepthImage
                    },
                    views: self.views.push(handle),
                    ..self
                },
            ),
            (ResizeStage::DepthImage, ResizeReply::Created(handle)) => ResizeOutcome::Continue(
                ResizeModel { stage: ResizeStage::DepthMemory, depth_image: handle, ..self },
            ),
            (ResizeStage::DepthMemory, ResizeReply::Created(handle)) => ResizeOutcome::Continue(
                ResizeModel { stage: ResizeStage::DepthBinding, depth_allocation: handle, ..self },
            ),
            (ResizeStage::DepthBinding, ResizeReply::Done) => ResizeOutcome::Continue(
                ResizeModel { stage: ResizeStage::DepthView, ..self },
            ),
            (ResizeStage::DepthView, ResizeReply::Created(handle)) => ResizeOutcome::Finished {
                context: self.context,
                state: self.finished_state(handle),
                retire: retire_order(self.previous),
            },
            _ => self.fail(self.refusal(reply)),
        }
    }
}

/// A resize in progress. It owns the live state that it began with and
/// everything that it has built so far.
pub struct Resize {
    context: Context,
    window: Extent2D,
    previous: Option<SwapchainState>,
    stage: ResizeStage,
    scope: Scope,
    capabilities: SurfaceCapabilities,
    extent: Extent2D,
    swapchain: u64,
    images: Vec<u64>,
    views: Vec<u64>,
    depth_image: u64,
    depth_allocation: u64,
}

impl View for Resize {
    type V = ResizeModel;

    closed spec fn view(&self) -> ResizeModel {
        ResizeModel {
            context: self.context,
            window: self.window,
            previous: live_view(self.previous),
            stage: self.stage,
            capabilities: self.capabilities,
            extent: self.extent,
            swapchain: self.swapchain,
            images: self.images@,
            views: self.views@,
            depth_image: self.depth_image,
            depth_allocation: self.depth_allocation,
        }
    }
}

/// How a resize stands after a reply.
pub enum ResizeStep {
    /// The next request is pending.
    Continue(Resize),
    /// The new state is live. `retire` lists the objects of the old state,
    /// to be destroyed in that order.
    Finished { context: Context, state: SwapchainState, retire: Vec<Resource> },
    /// The resize is off. `destroy` lists what it had built, to be destroyed
    /// in that order; `previous` is the live state as it was.
    Failed {
        error: Error,
        destroy: Vec<Resource>,
        context: Context,
        previous: Option<SwapchainState>,
    },
}

impl View for ResizeStep {
    type V = ResizeOutcome;

    open spec fn view(&self) -> ResizeOutcome {
        match *self {
            ResizeStep::Continue(resize) => ResizeOutcome::Continue(resize@),
            ResizeStep::Finished { context, state, retire } => ResizeOutcome::Finished {
                context,
                state: state@,
                retire: retire@,
            },
            ResizeStep::Failed { error, destroy, context, previous } => ResizeOutcome::Failed {
                error,
                destroy: destroy@,
                context,
                previous: live_view(previous),
            },
        }
    }
}

fn refusal_of(stage: ResizeStage, views: usize, failed: bool) -> (error: Error)
    ensures
        error == if failed {
            match stage {
                ResizeStage::Idle => Error::UnexpectedReply,
                ResizeStage::Capabilities => Error::SurfaceCapabilities,
                ResizeStage::Swapchain => Error::Create { kind: ResourceKind::Swapchain, index: 0 },
                ResizeStage::Images => Error::SwapchainImages,
                ResizeStage::Views => Error::Create {
                    kind: ResourceKind::SwapchainImageView,
                    index: views,
                },
                ResizeStage::DepthImage => Error::Create {
                    kind: ResourceKind::DepthImage,
                    index: 0,
                },
                ResizeStage::DepthMemory => Error::Create {
                    kind: ResourceKind::DepthMemory,
                    index: 0,
                },
                ResizeStage::DepthBinding => Error::Create {
                    kind: ResourceKind::DepthBinding,
                    index: 0,
                },
                ResizeStage::DepthView => Error::Create { kind: ResourceKind::DepthView, index: 0 },
            }
        } else {
            Error::UnexpectedReply
        },
{
    if !failed {
        return Error::UnexpectedReply;
    }
    match stage {
        ResizeStage::Idle => Error::UnexpectedReply,
        ResizeStage::Capabilities => Error::SurfaceCapabilities,
        ResizeStage::Swapchain => Error::Create { kind: ResourceKind::Swapchain, index: 0 },
        ResizeStage::Images => Error::SwapchainImages,
        ResizeStage::Views => Error::Create { kind: ResourceKind::SwapchainImageView, index: views },
        ResizeStage::DepthImage => Error::Create { kind: ResourceKind::DepthImage, index: 0 },
        ResizeStage::DepthMemory => Error::Create { kind: ResourceKind::DepthMemory, index: 0 },
        ResizeStage::DepthBinding => Error::Create { kind: ResourceKind::DepthBinding, index: 0 },
        ResizeStage::DepthView => Error::Create { kind: ResourceKind::DepthView, index: 0 },
    }
}

/// Lists the objects of a retired state in the order of their destruction.
pub fn retire(previous: &Option<SwapchainState>) -> (list: Vec<Resource>)
    ensures
        list@ == retire_order(live_view(*previous)),
{
    let mut list: Vec<Resource> = Vec::new();
    match previous {
        None => {
            assert(list@ =~= retire_order(live_view(*previous)));
        },
        Some(state) => {
            if state.swapchain != bindings::null_swapchain() {
                list.push(Resource { kind: ResourceKind::Swapchain, index: 0, handle: state.swapchain });
            }
            let ghost chain = list@;
            let mut i: usize = 0;
            while i < state.image_views.len()
                invariant
                    i <= state.image_views@.len(),
                    list@ =~= chain + view_resources(state.image_views@.take(i as int)),
                decreases state.image_views.len() - i,
            {
                list.push(
                    Resource {
                        kind: ResourceKind::SwapchainImageView,
                        index: i,
                        handle: state.image_views[i],
                    },
                );
                i += 1;
            }
            assert(state.image_views@.take(i as int) =~= state.image_views@);
            list.push(
                Resource {
                    kind: ResourceKind::DepthImage,
                    index: 0,
                    handle: state.depth_buffer.image,
                },
            );
            list.push(
                Resource { kind: ResourceKind::DepthView, index: 0, handle: state.depth_buffer.view },
            );
            list.push(
                Resource {
                    kind: ResourceKind::DepthMemory,
                    index: 0,
                    handle: state.depth_buffer.allocation,
                },
            );
            assert(list@ =~= retire_order(live_view(*previous)));
        },
    }
    list
}

impl Resize {
    #[verifier::type_invariant]
    spec fn inv(&self) -> bool {
        self@.wf() && self.scope@ == self@.built()
    }

    /// Begins a resize for a window of the given size in pixels. `previous`
    /// is the live state, or nothing where the swapchain is built for the
    /// first time.
    pub fn begin(context: Context, window: Extent2D, previous: Option<SwapchainState>) -> (resize:
        Resize)
        ensures
            resize@ == ResizeModel::start(context, window, live_view(previous)),
    {
        let none = Extent2D { width: 0, height: 0 };
        Resize {
            context,
            window,
            previous,
            stage: ResizeStage::Idle,
            scope: Scope::new(),
            capabilities: SurfaceCapabilities {
                min_image_count: 0,
                max_image_count: 0,
                current_extent: none,
                min_image_extent: none,
                max_image_extent: none,
                current_transform: 0,
            },
            extent: none,
            swapchain: bindings::null_swapchain(),
            images: Vec::new(),
            views: Vec::new(),
            depth_image: bindings::null_swapchain(),
            depth_allocation: bindings::null_swapchain(),
        }
    }

    /// The request that is pending.
    pub fn request(&self) -> (request: ResizeRequest)
        ensures
            self@.wf(),
            request == self@.request(),
    {
        proof {
            use_type_invariant(self);
        }
        match self.stage {
            ResizeStage::Idle => ResizeRequest::WaitIdle,
            ResizeStage::Capabilities => ResizeRequest::QueryCapabilities {
                physical_device: self.context.physical_device,
                surface: self.context.surface,
            },
            ResizeStage::Swapchain => {
                let old_swapchain = match &self.previous {
                    Some(state) => state.swapchain,
                    None => bindings::null_swapchain(),
                };
                ResizeRequest::CreateSwapchain(
                    create_swapchain(
                        old_swapchain,
                        self.context.surface,
                        &self.capabilities,
                        &self.context.surface_format,
                        self.extent,
                        self.context.present_mode,
                    ),
                )
            },
            ResizeStage::Images => ResizeRequest::QueryImages { swapchain: self.swapchain },
            ResizeStage::Views => ResizeRequest::CreateImageView {
                index: self.views.len(),
                info: swapchain_image_view_info(
                    self.images[self.views.len()],
                    self.context.surface_format.format,
                ),
            },
            ResizeStage::DepthImage => ResizeRequest::CreateDepthImage(
                depth_image_info(self.extent, self.context.depth_format),
            ),
            ResizeStage::DepthMemory => ResizeRequest::AllocateDepthMemory(
                depth_memory_info(self.depth_image),
            ),
            ResizeStage::DepthBinding => ResizeRequest::BindDepthMemory {
                image: self.depth_image,
                allocation: self.depth_allocation,
            },
            ResizeStage::DepthView => ResizeRequest::CreateDepthView(
                depth_view_info(self.depth_image, self.context.depth_format),
            ),
        }
    }

    /// Runs the resize to its end: puts each pending request to `answer`
    /// and takes the reply, until the resize is settled. The result is the
    /// outcome of the protocol on the replies that `answer` gave, so it is
    /// never a pending resize.
    pub fn drive<F: FnMut(ResizeRequest) -> ResizeReply>(self, answer: F) -> (settled: ResizeStep)
        requires
            forall|request: ResizeRequest| call_requires(answer, (request,)),
        ensures
            exists|replies: Seq<ResizeReply>|
                settled@ == run(self@, replies) && answered_by(answer, self@, replies),
            match settled@ {
                ResizeOutcome::Continue(_) => false,
                ResizeOutcome::Finished { context, state, retire } => context == self@.context
                    && state.wf() && retire == retire_order(self@.previous),
                ResizeOutcome::Failed { context, previous, .. } => context == self@.context
                    && previous == self@.previous,
            },
    {
        proof {
            use_type_invariant(&self);
        }
        let ghost start = self@;
        let ghost replies: Seq<ResizeReply> = Seq::empty();
        let mut resize = self;
        let mut asked = answer;
        loop
            invariant
                asked == answer,
                forall|request: ResizeRequest| call_requires(answer, (request,)),
                start == self@,
                start.wf(),
                run(start, replies) == ResizeOutcome::Continue(resize@),
                answered_by(answer, start, replies),
            decreases stages_ahead(resize@.stage), resize@.images.len() - resize@.views.len(),
        {
            let ghost before = replies;
            let request = resize.request();
            let reply = asked(request);
            proof {
                replies = before.push(reply);
                assert(replies.drop_last() =~= before);
                assert(replies.take(before.len() as int) =~= before);
                assert forall|i: int| 0 <= i < replies.len() implies asked_then_answered(
                    answer,
                    start,
                    replies,
                    i,
                ) by {
                    if i < before.len() {
                        assert(asked_then_answered(answer, start, before, i));
                        assert(replies.take(i) =~= before.take(i));
                    }
                }
            }
            match resize.advance(reply) {
                ResizeStep::Continue(next) => {
                    resize = next;
                },
                settled => {
                    proof {
                        run_law(start, replies);
                        assert(settled@ == run(start, replies));
                        assert(answered_by(answer, start, replies));
                    }
                    return settled;
                },
            }
        }
    }

    /// Takes the reply to the pending request and says how the resize
    /// stands: the next request, the new live state with the old objects to
    /// retire, or the failure with the objects to destroy and the live state
    /// as it was.
    pub fn advance(self, reply: ResizeReply) -> (step: ResizeStep)
        ensures
            self@.wf(),
            step@ == self@.next(reply),
    {
        proof {
            use_type_invariant(&self);
        }
        let ghost before = self@;
        let Resize {
            context,
            window,
            previous,
            stage,
            scope,
            capabilities,
            extent,
            swapchain,
            images,
            views,
            depth_image,
            depth_allocation,
        } = self;
        let mut scope = scope;
        let mut views = views;
        match (stage, reply) {
            (ResizeStage::Idle, _) => ResizeStep::Continue(
                Resize {
                    context,
                    window,
                    previous,
                    stage: ResizeStage::Capabilities,
                    scope,
                    capabilities,
                    extent,
                    swapchain,
                    images,
                    views,
                    depth_image,
                    depth_allocation,
                },
            ),
            (ResizeStage::Capabilities, ResizeReply::Capabilities(found)) => {
                let extent = get_surface_extent(window, &found);
                ResizeStep::Continue(
                    Resize {
                        context,
                        window,
                        previous,
                        stage: ResizeStage::Swapchain,
                        scope,
                        capabilities: found,
                        extent,
                        swapchain,
                        images,
                        views,
                        depth_image,
                        depth_allocation,
                    },
                )
            },
            (ResizeStage::Swapchain, ResizeReply::Created(handle)) => {
                scope.guard(Resource { kind: ResourceKind::Swapchain, index: 0, handle });
                assert(scope@ =~= seq![single(ResourceKind::Swapchain, handle)]);
                ResizeStep::Continue(
                    Resize {
                        context,
                        window,
                        previous,
                        stage: ResizeStage::Images,
                        scope,
                        capabilities,
                        extent,
                        swapchain: handle,
                        images,
                        views,
                        depth_image,
                        depth_allocation,
                    },
                )
            },
            (ResizeStage::Images, ResizeReply::Images(found)) => {
                let stage = if found.len() == 0 {
                    ResizeStage::DepthImage
                } else {
                    ResizeStage::Views
                };
                let fresh: Vec<u64> = Vec::new();
                assert(scope@ =~= seq![single(ResourceKind::Swapchain, swapchain)] + view_resources(
                    fresh@,
                ));
                ResizeStep::Continue(
                    Resize {
                        context,
                        window,
                        previous,
                        stage,
                        scope,
                        capabilities,
                        extent,
                        swapchain,
                        images: found,
                        views: fresh,
                        depth_image,
                        depth_allocation,
                    },
                )
            },
            (ResizeStage::Views, ResizeReply::Created(handle)) => {
                let index: usize = views.len();
                let total: usize = images.len();
                scope.guard(Resource { kind: ResourceKind::SwapchainImageView, index, handle });
                views.push(handle);
                assert(scope@ =~= seq![single(ResourceKind::Swapchain, swapchain)] + view_resources(
                    views@,
                ));
                let stage = if index + 1 < total {
                    ResizeStage::Views
                } else {
                    ResizeStage::DepthImage
                };
                ResizeStep::Continue(
                    Resize {
                        context,
                        window,
                        previous,
                        stage,
                        scope,
                        capabilities,
                        extent,
                        swapchain,
                        images,
                        views,
                        depth_image,
                        depth_allocation,
                    },
                )
            },
            (ResizeStage::DepthImage, ResizeReply::Created(handle)) => {
                scope.guard(Resource { kind: ResourceKind::DepthImage, index: 0, handle });
                assert(scope@ =~= seq![single(ResourceKind::Swapchain, swapchain)] + view_resources(
                    views@,
                ) + seq![single(ResourceKind::DepthImage, handle)]);
                ResizeStep::Continue(
                    Resize {
                        context,
                        window,
                        previous,
                        stage: ResizeStage::DepthMemory,
                        scope,
                        capabilities,
                        extent,
                        swapchain,
                        images,
                        views,
                        depth_image: handle,
                        depth_allocation,
                    },
                )
            },
            (ResizeStage::DepthMemory, ResizeReply::Created(handle)) => {
                scope.guard(Resource { kind: ResourceKind::DepthMemory, index: 0, handle });
                assert(scope@ =~= seq![single(ResourceKind::Swapchain, swapchain)] + view_resources(
                    views@,
                ) + seq![
                    single(ResourceKind::DepthImage, depth_image),
                    single(ResourceKind::DepthMemory, handle),
                ]);
                ResizeStep::Continue(
                    Resize {
                        context,
                        window,
                        previous,
                        stage: ResizeStage::DepthBinding,
                        scope,
                        capabilities,
                        extent,
                        swapchain,
                        images,
                        views,
                        depth_image,
                        depth_allocation: handle,
                    },
                )
            },
            (ResizeStage::DepthBinding, ResizeReply::Done) => ResizeStep::Continue(
                Resize {
                    context,
                    window,
                    previous,
                    stage: ResizeStage::DepthView,
                    scope,
                    capabilities,
                    extent,
                    swapchain,
                    images,
                    views,
                    depth_image,
                    depth_allocation,
                },
            ),
            (ResizeStage::DepthView, ResizeReply::Created(handle)) => {
                let retired = retire(&previous);
                ResizeStep::Finished {
                    context,
                    state: SwapchainState {
                        capabilities,
                        extent,
                        swapchain,
                        images,
                        image_views: views,
                        depth_buffer: MemImage {
                            image: depth_image,
                            view: handle,
                            extent: Extent3D { width: extent.width, height: extent.height, depth: 1 },
                            allocation: depth_allocation,
                        },
                    },
                    retire: retired,
                }
            },
            (stage, reply) => {
                let failed = matches!(reply, ResizeReply::Failed);
                let error = refusal_of(stage, views.len(), failed);
                ResizeStep::Failed { error, destroy: scope.rollback(), context, previous }
            },
        }
    }
}

/// The outcome of a resize that gets `replies`, one per request, for as
/// long as requests are pending. Replies left over once the resize is
/// settled are not read.
pub open spec fn run(resize: ResizeModel, replies: Seq<ResizeReply>) -> ResizeOutcome
    decreases replies.len(),
{
    if replies.len() == 0 {
        ResizeOutcome::Continue(resize)
    } else {
        match run(resize, replies.drop_last()) {
            ResizeOutcome::Continue(next) => next.next(replies.last()),
            settled => settled,
        }
    }
}

/// Whether the `i`-th of `replies` is what `answer` gave to the request
/// that was pending after the replies before it.
pub open spec fn asked_then_answered<F: FnMut(ResizeRequest) -> ResizeReply>(
    answer: F,
    resize: ResizeModel,
    replies: Seq<ResizeReply>,
    i: int,
) -> bool {
    match run(resize, replies.take(i)) {
        ResizeOutcome::Continue(asking) => call_ensures(answer, (asking.request(),), replies[i]),
        _ => false,
    }
}

/// Whether each of `replies` is what `answer` gave to the request that was
/// pending at its turn.
pub open spec fn answered_by<F: FnMut(ResizeRequest) -> ResizeReply>(
    answer: F,
    resize: ResizeModel,
    replies: Seq<ResizeReply>,
) -> bool {
    forall|i: int|
        0 <= i < replies.len() ==> #[trigger] asked_then_answered(answer, resize, replies, i)
}

/// The number of requests that a resize still has to make at most, as a
/// pair: the stages that lie ahead, and the views that are still missing.
pub open spec fn stages_ahead(stage: ResizeStage) -> nat {
    match stage {
        ResizeStage::Idle => 8,
        ResizeStage::Capabilities => 7,
        ResizeStage::Swapchain => 6,
        ResizeStage::Images => 5,
        ResizeStage::Views => 4,
        ResizeStage::DepthImage => 3,
        ResizeStage::DepthMemory => 2,
        ResizeStage::DepthBinding => 1,
        ResizeStage::DepthView => 0,
    }
}

/// The live state once a resize has come to `outcome`: the new state if it
/// finished, else the state that was live before.
pub open spec fn live_after(previous: Option<SwapchainModel>, outcome: ResizeOutcome) -> Option<
    SwapchainModel,
> {
    match outcome {
        ResizeOutcome::Finished { state, .. } => Some(state),
        ResizeOutcome::Failed { previous: handed_back, .. } => handed_back,
        ResizeOutcome::Continue(_) => previous,
    }
}

/// One attempt at a resize: the size of the window and the replies that the
/// requests get.
pub struct Attempt {
    pub window: Extent2D,
    pub replies: Seq<ResizeReply>,
}

/// The live state after a sequence of resize attempts, each starting from
/// the state that the one before left live.
pub open spec fn live_after_all(
    context: Context,
    live: Option<SwapchainModel>,
    attempts: Seq<Attempt>,
) -> Option<SwapchainModel>
    decreases attempts.len(),
{
    if attempts.len() == 0 {
        live
    } else {
        let first = attempts[0];
        let outcome = run(ResizeModel::start(context, first.window, live), first.replies);
        live_after_all(context, live_after(live, outcome), attempts.skip(1))
    }
}

/// Whether a state that may not be there yet has one view per image.
pub open spec fn live_wf(live: Option<SwapchainModel>) -> bool {
    match live {
        Some(state) => state.wf(),
        None => true,
    }
}

/// One step of the protocol keeps the resize well formed and never touches
/// the live state, the context or the window size. A step that finishes
/// hands out a state with one view per image, whose images are those that
/// the new swapchain reported and whose views are those that this resize
/// made, and retires the old state whole. A step that fails destroys what
/// this resize built, the latest first, and hands back the live state as
/// it was.
pub proof fn step_law(resize: ResizeModel, reply: ResizeReply)
    requires
        resize.wf(),
    ensures
        match resize.next(reply) {
            ResizeOutcome::Continue(next) => {
                &&& next.wf()
                &&& next.previous == resize.previous
                &&& next.context == resize.context
                &&& next.window == resize.window
            },
            ResizeOutcome::Finished { context, state, retire } => {
                &&& context == resize.context
                &&& state.wf()
                &&& state.images == resize.images
                &&& state.image_views == resize.views
                &&& state.swapchain == resize.swapchain
                &&& retire == retire_order(resize.previous)
            },
            ResizeOutcome::Failed { error, destroy, context, previous } => {
                &&& context == resize.context
                &&& previous == resize.previous
                &&& destroy == rollback_order(resize.built())
                &&& error == resize.refusal(reply)
            },
        },
{
}

/// A step that stays in the protocol only adds to what the resize has
/// built: what was built before is still there, in the same order.
pub proof fn step_only_adds(resize: ResizeModel, reply: ResizeReply)
    requires
        resize.wf(),
    ensures
        resize.next(reply) matches ResizeOutcome::Continue(next) ==> resize.built().is_prefix_of(
            next.built(),
        ),
{
    match resize.next(reply) {
        ResizeOutcome::Continue(next) => {
            let chain = seq![single(ResourceKind::Swapchain, resize.swapchain)];
            match resize.stage {
                ResizeStage::Views => {
                    assert(view_resources(resize.views).is_prefix_of(view_resources(next.views)));
                    assert(resize.built().is_prefix_of(next.built()));
                },
                ResizeStage::Images => {
                    assert(view_resources(next.views) =~= Seq::empty());
                    assert(resize.built().is_prefix_of(next.built()));
                },
                _ => {
                    assert(resize.built().is_prefix_of(next.built()));
                },
            }
        },
        _ => {},
    }
}

/// However far a resize has come, it has not touched the live state: while
/// it runs it is well formed and carries the live state along unchanged; if
/// it failed, it handed the live state back as it was; if it finished, the
/// new state has one view per image and the old state is retired whole.
pub proof fn run_law(resize: ResizeModel, replies: Seq<ResizeReply>)
    requires
        resize.wf(),
    ensures
        match run(resize, replies) {
            ResizeOutcome::Continue(next) => next.wf() && next.previous == resize.previous
                && next.context == resize.context && next.window == resize.window,
            ResizeOutcome::Finished { context, state, retire } => context == resize.context
                && state.wf() && retire == retire_order(resize.previous),
            ResizeOutcome::Failed { context, previous, .. } => context == resize.context
                && previous == resize.previous,
        },
    decreases replies.len(),
{
    if replies.len() > 0 {
        run_law(resize, replies.drop_last());
        match run(resize, replies.drop_last()) {
            ResizeOutcome::Continue(next) => {
                step_law(next, replies.last());
            },
            _ => {},
        }
    }
}

/// However a resize ends, the number of views in the state that is live
/// afterwards equals the number of its images, provided that this held of
/// the state that was live before.
pub proof fn views_match_images(resize: ResizeModel, replies: Seq<ResizeReply>)
    requires
        resize.wf(),
        live_wf(resize.previous),
    ensures
        live_wf(live_after(resize.previous, run(resize, replies))),
        run(resize, replies) matches ResizeOutcome::Finished { state, .. } ==> state.image_views.len()
            == state.images.len(),
{
    run_law(resize, replies);
}

/// A resize that fails, at whatever request, hands back the live state that
/// it began with, unchanged.
pub proof fn failure_keeps_live_state(resize: ResizeModel, replies: Seq<ResizeReply>)
    requires
        resize.wf(),
    ensures
        run(resize, replies) matches ResizeOutcome::Failed { previous, .. } ==> previous
            == resize.previous,
        run(resize, replies) matches ResizeOutcome::Continue(next) ==> next.previous
            == resize.previous,
        run(resize, replies) matches ResizeOutcome::Finished { retire, .. } ==> retire
            == retire_order(resize.previous),
{
    run_law(resize, replies);
}

/// A failed resize can be repeated: with the same window size and the same
/// replies, the resize that starts from the state handed back ends as the
/// failed one did.
pub proof fn failure_is_repeatable(
    context: Context,
    window: Extent2D,
    live: Option<SwapchainModel>,
    replies: Seq<ResizeReply>,
)
    ensures
        run(ResizeModel::start(context, window, live), replies) is Failed ==> run(
            ResizeModel::start(
                context,
                window,
                live_after(live, run(ResizeModel::start(context, window, live), replies)),
            ),
            replies,
        ) == run(ResizeModel::start(context, window, live), replies),
{
    failure_keeps_live_state(ResizeModel::start(context, window, live), replies);
}

/// Over any sequence of resize attempts, finished or failed, the live state
/// keeps one view per image.
pub proof fn views_match_images_always(
    context: Context,
    live: Option<SwapchainModel>,
    attempts: Seq<Attempt>,
)
    requires
        live_wf(live),
    ensures
        live_wf(live_after_all(context, live, attempts)),
    decreases attempts.len(),
{
    if attempts.len() > 0 {
        let first = attempts[0];
        let start = ResizeModel::start(context, first.window, live);
        views_match_images(start, first.replies);
        views_match_images_always(
            context,
            live_after(live, run(start, first.replies)),
            attempts.skip(1),
        );
    }
}

/// When a resize finishes, every view of the old state is among the objects
/// retired, and the swapchain of the old state is too unless it is null.
pub proof fn old_views_are_retired(previous: SwapchainModel, i: int)
    requires
        0 <= i < previous.image_views.len(),
    ensures
        retire_order(Some(previous)).contains(
            Resource {
                kind: ResourceKind::SwapchainImageView,
                index: i as usize,
                handle: previous.image_views[i],
            },
        ),
        previous.swapchain != bindings::NULL_HANDLE ==> retire_order(Some(previous))[0] == single(
            ResourceKind::Swapchain,
            previous.swapchain,
        ),
{
    let list = retire_order(Some(previous));
    let offset: int = if previous.swapchain != bindings::NULL_HANDLE {
        1
    } else {
        0
    };
    assert(list[offset + i] == view_resources(previous.image_views)[i]);
}

} // verus!
