//! The objects that setup creates, named by the step that creates them.

use crate::select::{first, first_is, first_is_none, first_sound, is_first, none_pass};
use vstd::prelude::*;

verus! {

/// A construction step. Each step either creates one object that must later
/// be destroyed, or changes an object that an earlier step created (binding
/// memory, filling a staging buffer, uploading), or makes a choice that
/// later steps build on (selecting the device).
#[derive(Clone, Copy, Debug, PartialEq, Eq, Structural)]
pub enum ResourceKind {
    Instance,
    Surface,
    DeviceSelection,
    Device,
    Allocator,
    Swapchain,
    SwapchainImageView,
    DepthImage,
    DepthMemory,
    DepthBinding,
    DepthView,
    StagingBuffer,
    StagingMemory,
    StagingBinding,
    StagingFill,
    Buffer,
    BufferMemory,
    BufferBinding,
    Upload,
    VertexShader,
    TessEvalShader,
    TessControlShader,
    FragmentShader,
    ControlPointsBuffer,
    PatchesBuffer,
    InstancesBuffer,
    UniformBuffer,
    DescriptorSetLayout,
    PipelineLayout,
    RenderPass,
    SolidPipeline,
    WireframePipeline,
    Framebuffer,
    CommandPool,
    DescriptorPool,
    Fence,
}

impl ResourceKind {
    /// Whether a successful step of this kind leaves an object behind that a
    /// rollback has to destroy. Selecting a device, binding memory, filling
    /// a staging buffer and uploading leave none.
    pub open spec fn spec_leaves_object(self) -> bool {
        self != ResourceKind::DeviceSelection && self != ResourceKind::DepthBinding && self
            != ResourceKind::StagingBinding && self != ResourceKind::StagingFill && self
            != ResourceKind::BufferBinding && self != ResourceKind::Upload
    }

    /// Whether a successful step of this kind leaves an object behind that a
    /// rollback has to destroy.
    #[verifier::when_used_as_spec(spec_leaves_object)]
    pub fn leaves_object(self) -> (b: bool)
        ensures
            b == self.spec_leaves_object(),
    {
        match self {
            ResourceKind::DeviceSelection => false,
            ResourceKind::DepthBinding => false,
            ResourceKind::StagingBinding => false,
            ResourceKind::StagingFill => false,
            ResourceKind::BufferBinding => false,
            ResourceKind::Upload => false,
            _ => true,
        }
    }

    /// Whether a step of this kind is carried out together with the step
    /// that follows it, by one call that makes the objects of both. The
    /// solid pipeline is made together with the wireframe pipeline that
    /// derives from it.
    pub open spec fn spec_made_with_next(self) -> bool {
        self == ResourceKind::SolidPipeline
    }

    /// Whether a step of this kind is carried out together with the step
    /// that follows it.
    #[verifier::when_used_as_spec(spec_made_with_next)]
    pub fn made_with_next(self) -> (b: bool)
        ensures
            b == self.spec_made_with_next(),
    {
        match self {
            ResourceKind::SolidPipeline => true,
            _ => false,
        }
    }

    /// Whether objects of this kind are created in numbered series, so that a
    /// failure names the position in the series.
    pub open spec fn spec_is_numbered(self) -> bool {
        self == ResourceKind::SwapchainImageView || self == ResourceKind::UniformBuffer || self
            == ResourceKind::Framebuffer || self == ResourceKind::CommandPool || self
            == ResourceKind::DescriptorPool || self == ResourceKind::Fence
    }

    /// Whether objects of this kind are created in numbered series.
    #[verifier::when_used_as_spec(spec_is_numbered)]
    pub fn is_numbered(self) -> (b: bool)
        ensures
            b == self.spec_is_numbered(),
    {
        match self {
            ResourceKind::SwapchainImageView => true,
            ResourceKind::UniformBuffer => true,
            ResourceKind::Framebuffer => true,
            ResourceKind::CommandPool => true,
            ResourceKind::DescriptorPool => true,
            ResourceKind::Fence => true,
            _ => false,
        }
    }
}

/// One created object: the step that made it, its position in a series of
/// like objects (zero outside a series) and its raw handle.
#[derive(Clone, Copy, Debug, PartialEq, Eq, Structural)]
pub struct Resource {
    pub kind: ResourceKind,
    pub index: usize,
    pub handle: u64,
}

/// The test "was made by the step `kind` at position `index`".
pub open spec fn made_by(kind: ResourceKind, index: usize) -> spec_fn(Resource) -> bool {
    |resource: Resource| resource.kind == kind && resource.index == index
}

/// The handle of the first object in `resources` that the step `kind` at
/// position `index` made.
pub open spec fn handle_of(resources: Seq<Resource>, kind: ResourceKind, index: usize) -> Option<
    u64,
> {
    match first(resources, made_by(kind, index)) {
        Some(i) => Some(resources[i].handle),
        None => None,
    }
}

/// Looks up the handle of the object that the step `kind` at position
/// `index` made.
pub fn lookup(resources: &Vec<Resource>, kind: ResourceKind, index: usize) -> (handle: Option<u64>)
    ensures
        handle == handle_of(resources@, kind, index),
{
    let mut i: usize = 0;
    while i < resources.len()
        invariant
            i <= resources.len(),
            forall|k: int| 0 <= k < i ==> !made_by(kind, index)(#[trigger] resources@[k]),
        decreases resources.len() - i,
    {
        if resources[i].kind == kind && resources[i].index == index {
            proof {
                assert(is_first(resources@, made_by(kind, index), i as int));
                first_is(resources@, made_by(kind, index), i as int);
            }
            return Some(resources[i].handle);
        }
        i += 1;
    }
    proof {
        assert(none_pass(resources@, made_by(kind, index)));
        first_is_none(resources@, made_by(kind, index));
    }
    None
}

/// An object that was made by the step `kind` at position `index` and
/// stands in `resources` is found there by that step.
pub proof fn made_is_found(resources: Seq<Resource>, kind: ResourceKind, index: usize, at: int)
    requires
        0 <= at < resources.len(),
        resources[at].kind == kind,
        resources[at].index == index,
    ensures
        handle_of(resources, kind, index) is Some,
{
    first_sound(resources, made_by(kind, index));
    if first(resources, made_by(kind, index)) is None {
        assert(!made_by(kind, index)(resources[at]));
    }
}

} // verus!
