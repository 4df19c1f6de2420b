//! The error type shared by every component.

use vstd::prelude::*;
use crate::descriptor_set::PoolClass;
use crate::registry::ResourceId;

verus! {

/// Why an operation of the renderer core was refused.
#[derive(Clone, Copy, Debug, PartialEq, Eq, Structural)]
pub enum AshError {
    /// The number of material descriptor sets differs from the worker count.
    MaterialDescriptorCountMismatch { descriptor_count: usize, worker_count: usize },
    /// The number of material uniform buffers differs from the worker count.
    MaterialBufferCountMismatch { buffer_count: usize, worker_count: usize },
    /// A registration named a dependency that is not a live record.
    UnknownDependency(ResourceId),
    /// No live record has this identifier.
    UnknownResource(ResourceId),
    /// The record cannot go while another live record depends on it.
    ResourceInUse(ResourceId),
    /// Every resource identifier has been handed out.
    RegistryExhausted,
    /// The layout of the descriptor set has no binding with this number.
    UnknownBinding(u32),
    /// The binding with this number holds descriptors of another type.
    DescriptorTypeMismatch(u32),
    /// The binding has no slot with this index.
    DescriptorIndexOutOfRange { binding: u32, array_index: u32 },
    /// The pool cannot give another descriptor set.
    DescriptorPoolExhausted(PoolClass),
    /// The device reported an error; the number is its raw result code.
    Device(i32),
    /// The event does not answer the action that the renderer asked for.
    FrameOutOfOrder,
    /// The renderer has no pipeline.
    PipelineUnavailable,
    /// The renderer has no pipeline layout.
    PipelineLayoutUnavailable,
    /// The renderer has no render pass.
    RenderPassUnavailable,
    /// The renderer has no depth buffer.
    DepthBufferUnavailable,
    /// The renderer has no swapchain.
    SwapchainUnavailable,
    /// The renderer has no descriptor manager.
    DescriptorManagerUnavailable,
    /// There is no command buffer for this frame slot.
    CommandBufferIndexOutOfRange(usize),
    /// There are no synchronization objects for this frame slot.
    FrameSyncIndexOutOfRange(usize),
    /// There is no uniform buffer for this frame slot.
    UniformBufferIndexOutOfRange(usize),
    /// There is no framebuffer for this image.
    FramebufferIndexOutOfRange(usize),
    /// There is no frame descriptor set for this frame slot.
    FrameSetUnavailable(usize),
    /// There is no material descriptor set for this worker.
    MaterialSetUnavailable(usize),
    /// The number of objects differs from the number of images.
    ImageCountMismatch { expected: usize, actual: usize },
    /// A count does not fit the 32 bits in which the device takes it.
    CountTooLarge(usize),
    /// The handles do not bring one set for every set that is asked for.
    DescriptorHandleCountMismatch,
    /// There is no descriptor set with this index.
    DescriptorSetIndexOutOfBounds { index: usize },
    /// The descriptor manager holds no material texture set with this handle.
    DescriptorSetNotManaged(u64),
    /// Every slot of the bindless table is taken.
    BindlessTableFull { capacity: u32 },
    /// The bindless index is too large for the signed form in which the
    /// shaders read it.
    BindlessIndexUnrepresentable(u32),
}

} // verus!
