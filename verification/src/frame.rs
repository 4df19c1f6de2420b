//! The vocabulary of a frame: the synchronization objects of a frame slot,
//! the events that the caller reports, and the actions that the core asks
//! for in return.

use vstd::prelude::*;
use crate::descriptor_set::DescriptorWrite;
use crate::error::AshError;
use crate::mesh::{BindlessIndices, TexturePresenceFlags};
use crate::native::{out_of_date_code, suboptimal_code, success_code};
use crate::registry::{DestroyCommand, ResourceId};
use crate::surface::Extent2D;

verus! {

/// The synchronization objects of one frame slot.
#[derive(Clone, Copy, Debug, PartialEq, Eq, Structural)]
pub struct FrameSync {
    /// Signaled when the presentable image was acquired.
    pub image_available: u64,
    /// Signaled when rendering finished; presentation waits for it.
    pub render_finished: u64,
    /// Signaled when the GPU finished the last submission of this slot.
    pub in_flight: u64,
}

/// The registry identifiers of the objects of one frame slot.
#[derive(Clone, Copy, Debug, PartialEq, Eq, Structural)]
pub struct FrameSyncIds {
    pub image_available: ResourceId,
    pub render_finished: ResourceId,
    pub in_flight: ResourceId,
}

/// What the core knows of the current swapchain.
#[derive(Clone, Copy, Debug, PartialEq, Eq, Structural)]
pub struct SwapchainInfo {
    pub handle: u64,
    pub extent: Extent2D,
    /// The raw number of the image format.
    pub format: i32,
    pub image_count: usize,
}

/// The objects of the shadow pass.
#[derive(Clone, Copy, Debug, PartialEq, Eq, Structural)]
pub struct ShadowPass {
    pub render_pass: u64,
    pub framebuffer: u64,
    pub depth_image_view: u64,
    pub sampler: u64,
    /// Width and height of the shadow map.
    pub resolution: u32,
    pub pipeline: u64,
    pub pipeline_layout: u64,
}

/// How the surface took an acquire or a present.
#[derive(Clone, Copy, Debug, PartialEq, Eq, Structural)]
pub enum SurfaceStatus {
    /// The call succeeded and the surface is as the swapchain expects it.
    Ready,
    /// The swapchain is out of date or suboptimal: it has to be rebuilt.
    Invalidated,
    /// The device reported an error.
    Failed,
}

/// The status that a raw result code of an acquire or a present stands
/// for.
pub open spec fn surface_status(code: i32) -> SurfaceStatus {
    if code == 0 {
        SurfaceStatus::Ready
    } else if code == 1_000_001_003 || code == -1_000_001_004 {
        SurfaceStatus::Invalidated
    } else {
        SurfaceStatus::Failed
    }
}

/// Tells a raw result code of an acquire or a present apart: success, a
/// surface that became invalid and is recovered from by a resize, or an
/// error of the device.
pub fn classify_surface_result(code: i32) -> (status: SurfaceStatus)
    ensures
        status == surface_status(code),
{
    if code == success_code() {
        SurfaceStatus::Ready
    } else if code == suboptimal_code() || code == out_of_date_code() {
        SurfaceStatus::Invalidated
    } else {
        SurfaceStatus::Failed
    }
}

/// What a pending resize asks for when a frame begins.
#[derive(Clone, Copy, Debug, PartialEq, Eq, Structural)]
pub enum ResizeDecision {
    /// No resize is pending.
    NotPending,
    /// The requested extent has no area, as that of a minimized window:
    /// the frame is skipped and the resize stays pending.
    Deferred,
    /// The renderer is headless and has nothing to rebuild: the frames in
    /// flight are waited for, and the resize is settled.
    Settle,
    /// The swapchain and what hangs on it are rebuilt.
    Rebuild,
}

/// Where the renderer stands: between frames, within a frame, or within
/// the rebuild that follows a resize.
#[derive(Clone, Copy, Debug, PartialEq, Eq, Structural)]
pub enum FramePhase {
    /// Between two frames.
    Idle,
    /// The caller waits for the completion fence of the frame slot.
    AwaitingFence,
    /// The caller acquires the presentable image.
    AwaitingImage,
    /// The caller records and submits the commands of the frame.
    Recording { image_index: usize, acquired: bool },
    /// The caller presents the image.
    Presenting { presented: u32 },
    /// The caller waits for the frames in flight of a headless renderer.
    AwaitingFrames,
    /// The caller waits for the frames in flight and recreates the
    /// swapchain.
    AwaitingSwapchain,
    /// The caller creates the depth buffer.
    AwaitingDepthBuffer,
    /// The caller creates the render pass and the framebuffers.
    AwaitingRenderTargets,
    /// The caller creates the synchronization objects of all frame slots.
    AwaitingFrameSyncs,
    /// The caller allocates the command buffers.
    AwaitingCommandBuffers,
    /// The caller creates the per-frame uniform buffers.
    AwaitingUniformBuffers,
    /// The caller allocates the frame descriptor sets.
    AwaitingFrameSets,
}

/// What the caller reports to the renderer.
#[derive(Debug)]
pub enum FrameEvent {
    /// A new frame is asked for.
    Begin,
    /// The completion fence was signaled and has been reset.
    FenceSignaled,
    /// The acquire ended with the raw result `code` and, on success, gave
    /// the image `image_index`.
    ImageAcquired { code: i32, image_index: u32 },
    /// The commands of the frame were recorded and submitted.
    Submitted,
    /// The present ended with the raw result `code`.
    Presented { code: i32 },
    /// The frames in flight of a headless renderer completed.
    FramesCompleted,
    /// The frames in flight completed and the swapchain was recreated.
    /// `old_swapchain` is the handle of the swapchain it replaces.
    SwapchainRecreated { swapchain: SwapchainInfo, old_swapchain: u64, image_views: Vec<u64> },
    /// The depth buffer was created; `view` is its image view.
    DepthBufferCreated { view: u64 },
    /// The render pass and one framebuffer per image were created.
    RenderTargetsCreated { render_pass: u64, framebuffers: Vec<u64> },
    /// The synchronization objects of all frame slots were created.
    FrameSyncsCreated { syncs: Vec<FrameSync> },
    /// The primary command pool was reset and the command buffers were
    /// allocated.
    CommandBuffersAllocated { buffers: Vec<u64> },
    /// The per-frame uniform buffers were created.
    UniformBuffersCreated { buffers: Vec<u64> },
    /// The frame descriptor sets were allocated.
    FrameSetsAllocated { sets: Vec<u64> },
    /// The device refused what the last action asked for, with the raw
    /// result `code`.
    Failed { code: i32 },
}

/// The texture set numbers that a draw hands to the fragment shader: slot
/// `k` reads texture set `k` where the mesh brings that texture, and `-1`
/// where it does not.
pub open spec fn texture_set_indices(flags: TexturePresenceFlags) -> BindlessIndices {
    BindlessIndices {
        base_color: if flags.base_color {
            0i32
        } else {
            -1i32
        },
        normal: if flags.normal {
            1i32
        } else {
            -1i32
        },
        metallic_roughness: if flags.metallic_roughness {
            2i32
        } else {
            -1i32
        },
        occlusion: if flags.occlusion {
            3i32
        } else {
            -1i32
        },
        emissive: if flags.emissive {
            4i32
        } else {
            -1i32
        },
    }
}

/// One draw of the main pass.
#[derive(Clone, Copy, Debug, PartialEq, Eq, Structural)]
pub struct DrawCall {
    /// The place of the draw item in the renderer's list.
    pub item: usize,
    /// The texture set to bind for the draw, if any.
    pub texture_set: Option<u64>,
    /// The texture set numbers for the push constants.
    pub texture_sets: BindlessIndices,
    /// The bindless indices for the material uniform.
    pub bindless_indices: BindlessIndices,
}

/// The shadow set of a frame, and the write that puts the shadow map into
/// it before the set is bound.
#[derive(Clone, Copy, Debug, PartialEq, Eq, Structural)]
pub struct ShadowBinding {
    pub set: u64,
    pub write: DescriptorWrite,
}

/// The descriptor sets that are bound once per frame.
#[derive(Clone, Copy, Debug, PartialEq, Eq, Structural)]
pub struct FrameSets {
    pub frame_set: u64,
    pub material_set: u64,
    pub default_texture_set: u64,
    pub shadow: Option<ShadowBinding>,
    pub bindless_set: Option<u64>,
}

/// The shadow pass of a frame, and the frame set that is bound in it.
#[derive(Clone, Copy, Debug, PartialEq, Eq, Structural)]
pub struct ShadowDraw {
    pub pass: ShadowPass,
    pub frame_set: Option<u64>,
}

/// Everything the caller needs to record and submit one frame.
#[derive(Debug)]
pub struct FramePlan {
    pub frame_index: usize,
    pub image_index: usize,
    /// Whether the image was acquired from a swapchain; the submission
    /// waits for the acquire only then.
    pub image_acquired: bool,
    pub worker_index: usize,
    pub command_buffer: u64,
    pub framebuffer: u64,
    pub render_pass: u64,
    pub pipeline: u64,
    pub pipeline_layout: u64,
    pub extent: Extent2D,
    /// The material buffer of the worker, where the worker has one.
    pub material_buffer: Option<u64>,
    /// The shadow pass that precedes the main pass.
    pub shadow_pass: Option<ShadowDraw>,
    /// The sets to bind; none where the renderer has no descriptor manager.
    pub sets: Option<FrameSets>,
    pub draws: Vec<DrawCall>,
    pub sync: FrameSync,
}

/// What the renderer asks the caller to do next.
#[derive(Debug)]
pub enum FrameAction {
    /// The frame is abandoned without drawing. Where `wait_idle` is set, a
    /// resize was requested just now and the caller waits for the device to
    /// become idle.
    Skip { wait_idle: bool },
    /// Wait for the fence of the frame slot and reset it, then report
    /// `FenceSignaled`. The swapchains in `retired` are no longer in use
    /// and are destroyed after the wait.
    WaitFence { frame_index: usize, fence: u64, retired: Vec<u64> },
    /// Write the uniforms of the frame slot, reset its command buffer and
    /// acquire the next image, signaling `semaphore`; then report
    /// `ImageAcquired`.
    AcquireImage { frame_index: usize, semaphore: u64 },
    /// Record the plan and submit it, then report `Submitted`. Where no
    /// acquire went before, the uniforms of the frame slot are written and
    /// its command buffer is reset first.
    Record(FramePlan),
    /// Present the image after `wait_semaphore` was signaled, then report
    /// `Presented`.
    Present { image_index: u32, wait_semaphore: u64 },
    /// The frame is complete. The swapchains in `retired` are destroyed
    /// now.
    Done { retired: Vec<u64> },
    /// Wait for every fence in `fences` and report `FramesCompleted`.
    WaitForFrames { fences: Vec<u64> },
    /// Wait for every fence in `fences`, recreate the swapchain and report
    /// `SwapchainRecreated`.
    Rebuild { fences: Vec<u64> },
    /// Carry out `destroy`, create a depth buffer of the given extent and
    /// report `DepthBufferCreated`. `refused` holds the cleanups that the
    /// registry refused; they are passed over.
    CreateDepthBuffer { extent: Extent2D, destroy: Vec<DestroyCommand>, refused: Vec<AshError> },
    /// Create the render pass and one framebuffer per image, each over its
    /// image view and the depth view, and report `RenderTargetsCreated`.
    CreateRenderTargets { extent: Extent2D, format: i32, image_count: usize, depth_view: u64 },
    /// Carry out `destroy`, create the synchronization objects of `count`
    /// frame slots and report `FrameSyncsCreated`.
    CreateFrameSyncs { count: usize, destroy: Vec<DestroyCommand>, refused: Vec<AshError> },
    /// Reset the primary command pool, allocate `count` command buffers
    /// and report `CommandBuffersAllocated`.
    AllocateCommandBuffers { count: usize },
    /// Release the uniform buffers in `release`, create `count` new ones
    /// and report `UniformBuffersCreated`.
    CreateUniformBuffers { count: usize, release: Vec<u64> },
    /// Allocate `count` descriptor sets of the frame layout `layout` and
    /// report `FrameSetsAllocated`.
    AllocateFrameSets { count: usize, layout: u64 },
    /// The rebuild is complete. Apply `writes`; the next frame can begin.
    Rebuilt { writes: Vec<DescriptorWrite> },
}

} // verus!
