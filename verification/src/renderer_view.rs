//! The mathematical content of the renderer, its invariant, and what each
//! event of a frame does to it.

use vstd::prelude::*;
use crate::bindless::BindlessView;
use crate::descriptor_manager::{shadow_write, ManagerView};
use crate::descriptor_set::DescriptorWrite;
use crate::draw::{DrawItemView, MeshTextures};
use crate::error::AshError;
use crate::frame::{
    surface_status, texture_set_indices, DrawCall, FrameAction, FrameEvent, FramePhase,
    FramePlan, FrameSets, FrameSync, FrameSyncIds, ResizeDecision, ShadowBinding, ShadowDraw,
    ShadowPass, SurfaceStatus, SwapchainInfo,
};
use crate::mesh::Mesh;
use crate::registry::{RegistryView, ResourceId};
use crate::renderer::{PostProcessing, FALLBACK_HEIGHT, FALLBACK_WIDTH};
use crate::surface::Extent2D;
use crate::texture::Texture;
use crate::worker::worker_index_spec;

verus! {

/// The mathematical content of a [`Renderer`].
pub struct RendererView {
    pub registry: RegistryView,
    pub worker_count: usize,
    pub command_buffers: Seq<u64>,
    pub frame_syncs: Seq<FrameSync>,
    pub frame_sync_ids: Seq<FrameSyncIds>,
    /// The frame slot of the next frame, or of the frame under way.
    pub current_frame: usize,
    pub phase: FramePhase,
    pub default_texture: Texture,
    pub draw_items: Seq<DrawItemView>,
    /// The swapchain; none in headless mode.
    pub swapchain: Option<SwapchainInfo>,
    pub render_pass: Option<u64>,
    pub render_pass_id: Option<ResourceId>,
    pub pipeline: Option<u64>,
    pub pipeline_layout: Option<u64>,
    /// The image view of the depth buffer.
    pub depth_buffer: Option<u64>,
    pub depth_buffer_id: Option<ResourceId>,
    pub uniform_buffers: Seq<u64>,
    /// The size of a per-frame uniform buffer in bytes.
    pub uniform_buffer_size: u64,
    pub material_buffers: Seq<u64>,
    pub descriptors: Option<ManagerView>,
    pub bindless: Option<BindlessView>,
    pub framebuffers: Seq<u64>,
    pub framebuffer_ids: Seq<ResourceId>,
    pub image_view_ids: Seq<ResourceId>,
    /// The mesh that is drawn where no render command is.
    pub mesh: Option<Mesh>,
    pub material: u64,
    pub transform: u64,
    /// Mesh handle to mesh key.
    pub mesh_registry: Map<u32, String>,
    /// Mesh key to texture state.
    pub mesh_textures: Map<Seq<char>, MeshTextures>,
    /// Material handle to material.
    pub material_registry: Map<u32, u64>,
    /// The superseded swapchains that wait for their destruction.
    pub old_swapchains: Seq<u64>,
    pub swapchain_cleanup_pending: bool,
    pub resize_pending: bool,
    pub pending_extent: Option<Extent2D>,
    pub shadow: Option<ShadowPass>,
    pub post_processing: PostProcessing,
}

impl RendererView {
    /// A frame is under way.
    pub open spec fn in_frame(self) -> bool {
        self.phase is AwaitingFence || self.phase is AwaitingImage || self.phase is Recording
            || self.phase is Presenting
    }

    /// The invariant of a renderer. Its parts are well-formed; while a
    /// frame is under way its slot has a command buffer, synchronization
    /// objects and a uniform buffer, and the image that is drawn to has a
    /// framebuffer; and only a renderer with a swapchain acquires and
    /// presents.
    pub open spec fn wf(self) -> bool {
        &&& self.registry.wf()
        &&& (self.descriptors matches Some(manager) ==> manager.wf())
        &&& (self.bindless matches Some(table) ==> table.wf())
        &&& (self.in_frame() ==> {
            &&& self.current_frame < self.command_buffers.len()
            &&& self.current_frame < self.frame_syncs.len()
            &&& self.current_frame < self.uniform_buffers.len()
        })
        &&& (self.phase matches FramePhase::Recording { image_index, acquired } ==> {
            &&& image_index < self.framebuffers.len()
            &&& (acquired ==> image_index <= u32::MAX && self.swapchain is Some)
        })
        &&& (self.phase is AwaitingImage || self.phase is Presenting ==> self.swapchain is Some)
        &&& (self.phase is AwaitingDepthBuffer || self.phase is AwaitingRenderTargets
            ==> self.views_live())
        &&& (self.phase is AwaitingRenderTargets ==> self.depth_live())
        &&& (self.phase is AwaitingFrameSyncs ==> self.targets_rebuilt())
        &&& (self.phase is AwaitingCommandBuffers || self.phase is AwaitingUniformBuffers
            || self.phase is AwaitingFrameSets ==> self.slots_rebuilt())
    }

    /// There is one registered image view per image of the swapchain.
    pub open spec fn views_live(self) -> bool {
        &&& self.swapchain matches Some(swapchain)
        &&& self.image_view_ids.len() == swapchain.image_count
        &&& forall|i: int|
            0 <= i < self.image_view_ids.len() ==> self.registry.contains(
                #[trigger] self.image_view_ids[i],
            )
    }

    /// The depth buffer is registered.
    pub open spec fn depth_live(self) -> bool {
        self.depth_buffer_id matches Some(id) && self.registry.contains(id)
    }

    /// There is one framebuffer per image of the swapchain.
    pub open spec fn targets_rebuilt(self) -> bool {
        self.swapchain matches Some(swapchain) && self.framebuffers.len() == swapchain.image_count
    }

    /// There is one frame slot per image of the swapchain, and the first
    /// slot is current.
    pub open spec fn slots_rebuilt(self) -> bool {
        &&& self.swapchain matches Some(swapchain)
        &&& self.frame_syncs.len() == swapchain.image_count
        &&& self.current_frame == 0
    }

    /// The completion fences of all frame slots.
    pub open spec fn fences(self) -> Seq<u64> {
        Seq::new(self.frame_syncs.len(), |i: int| self.frame_syncs[i].in_flight)
    }

    /// The renderer after a resize to `extent` was requested.
    pub open spec fn requested(self, extent: Extent2D) -> RendererView {
        RendererView { pending_extent: Some(extent), resize_pending: true, ..self }
    }

    /// The superseded swapchains that a flush hands over for destruction:
    /// all of them where a swapchain exists to destroy them through, and
    /// none where there is no swapchain.
    pub open spec fn retired(self) -> Seq<u64> {
        if self.swapchain is Some {
            self.old_swapchains
        } else {
            Seq::empty()
        }
    }

    /// The renderer after a flush of the superseded swapchains: the list is
    /// empty and no cleanup is pending, whatever the list held.
    pub open spec fn flushed(self) -> RendererView {
        RendererView { old_swapchains: Seq::empty(), swapchain_cleanup_pending: false, ..self }
    }

    /// The superseded swapchains that a frame hands over: a frame flushes
    /// only while a cleanup is pending.
    pub open spec fn retired_if_pending(self) -> Seq<u64> {
        if self.swapchain_cleanup_pending {
            self.retired()
        } else {
            Seq::empty()
        }
    }

    /// The renderer after the flush that a frame makes while a cleanup is
    /// pending.
    pub open spec fn flushed_if_pending(self) -> RendererView {
        if self.swapchain_cleanup_pending {
            self.flushed()
        } else {
            self
        }
    }

    /// The renderer after a frame was completed: the next frame slot is
    /// current.
    pub open spec fn advanced(self) -> RendererView {
        RendererView {
            current_frame: ((self.current_frame + 1) % (self.command_buffers.len() as int)) as usize,
            phase: FramePhase::Idle,
            ..self
        }
    }

    /// The renderer after the frame under way was given up.
    pub open spec fn idle(self) -> RendererView {
        RendererView { phase: FramePhase::Idle, ..self }
    }

    /// The renderer after the frame cycle of the descriptor allocator
    /// advanced.
    pub open spec fn next_cycle(self) -> RendererView {
        match self.descriptors {
            Some(manager) => RendererView {
                descriptors: Some(
                    ManagerView { allocator: manager.allocator.next_frame(), ..manager },
                ),
                ..self
            },
            None => self,
        }
    }

    /// The extent that frames are drawn with.
    pub open spec fn draw_extent(self) -> Extent2D {
        match self.swapchain {
            Some(swapchain) => swapchain.extent,
            None => match self.pending_extent {
                Some(extent) => extent,
                None => Extent2D { width: FALLBACK_WIDTH, height: FALLBACK_HEIGHT },
            },
        }
    }

    /// The texture set that a draw item binds where it has none of its
    /// own.
    pub open spec fn default_set(self) -> u64 {
        match self.descriptors {
            Some(manager) => manager.default_texture_array_set.handle,
            None => 0,
        }
    }

    /// The draw of the item at place `i`.
    pub open spec fn draw_call(self, i: int) -> DrawCall {
        let item = self.draw_items[i];
        DrawCall {
            item: i as usize,
            texture_set: if item.texture_set != 0 {
                Some(item.texture_set)
            } else if self.default_set() != 0 {
                Some(self.default_set())
            } else {
                None
            },
            texture_sets: texture_set_indices(item.texture_flags),
            bindless_indices: item.bindless_indices,
        }
    }

    /// The sets that are bound once per frame, or why they cannot be.
    pub open spec fn frame_sets(self, frame_index: usize) -> Result<Option<FrameSets>, AshError> {
        match self.descriptors {
            None => Ok(None),
            Some(manager) => {
                let worker = worker_index_spec(self.worker_count as nat, frame_index as nat);
                if frame_index >= manager.frame_sets.len() {
                    Err(AshError::FrameSetUnavailable(frame_index))
                } else if worker >= manager.material_sets.len() {
                    Err(AshError::MaterialSetUnavailable(worker as usize))
                } else {
                    let shadow = match self.shadow {
                        Some(pass) if frame_index < manager.shadow_sets.len() => Some(
                            shadow_write(
                                manager.shadow_sets[frame_index as int],
                                pass.depth_image_view,
                                pass.sampler,
                            ),
                        ),
                        _ => None,
                    };
                    match shadow {
                        Some(Err(error)) => Err(error),
                        _ => Ok(
                            Some(
                                FrameSets {
                                    frame_set: manager.frame_sets[frame_index as int].handle,
                                    material_set: manager.material_sets[worker as int].handle,
                                    default_texture_set: manager.default_texture_array_set.handle,
                                    shadow: match shadow {
                                        Some(Ok(write)) => Some(
                                            ShadowBinding {
                                                set: manager.shadow_sets[frame_index as int].handle,
                                                write,
                                            },
                                        ),
                                        _ => None,
                                    },
                                    bindless_set: match self.bindless {
                                        Some(table) => Some(table.set.handle),
                                        None => None,
                                    },
                                },
                            ),
                        ),
                    }
                }
            },
        }
    }

    /// Why no frame can be planned, if so: the first of pipeline, render
    /// pass and pipeline layout that is missing, or the refusal of the
    /// descriptor sets.
    pub open spec fn plan_refusal(self, frame_index: usize) -> Option<AshError> {
        if self.pipeline is None {
            Some(AshError::PipelineUnavailable)
        } else if self.render_pass is None {
            Some(AshError::RenderPassUnavailable)
        } else if self.pipeline_layout is None {
            Some(AshError::PipelineLayoutUnavailable)
        } else {
            match self.frame_sets(frame_index) {
                Err(error) => Some(error),
                Ok(_) => None,
            }
        }
    }

    /// `plan` is the plan of the frame in slot `frame_index` that draws to
    /// the image `image_index`.
    pub open spec fn plans(
        self,
        frame_index: usize,
        image_index: usize,
        acquired: bool,
        plan: FramePlan,
    ) -> bool {
        let worker = worker_index_spec(self.worker_count as nat, frame_index as nat);
        &&& plan.frame_index == frame_index
        &&& plan.image_index == image_index
        &&& plan.image_acquired == acquired
        &&& plan.worker_index == worker
        &&& plan.command_buffer == self.command_buffers[frame_index as int]
        &&& plan.framebuffer == self.framebuffers[image_index as int]
        &&& Some(plan.render_pass) == self.render_pass
        &&& Some(plan.pipeline) == self.pipeline
        &&& Some(plan.pipeline_layout) == self.pipeline_layout
        &&& plan.extent == self.draw_extent()
        &&& plan.material_buffer == if worker < self.material_buffers.len() {
            Some(self.material_buffers[worker as int])
        } else {
            None
        }
        &&& plan.shadow_pass == match self.shadow {
            Some(pass) => Some(
                ShadowDraw {
                    pass,
                    frame_set: match self.descriptors {
                        Some(manager) if frame_index < manager.frame_sets.len() => Some(
                            manager.frame_sets[frame_index as int].handle,
                        ),
                        _ => None,
                    },
                },
            ),
            None => None,
        }
        &&& Ok::<Option<FrameSets>, AshError>(plan.sets) == self.frame_sets(frame_index)
        &&& plan.draws@.len() == self.draw_items.len()
        &&& forall|i: int|
            0 <= i < self.draw_items.len() ==> #[trigger] plan.draws@[i] == self.draw_call(i)
        &&& plan.sync == self.frame_syncs[frame_index as int]
    }
}

impl RendererView {
    /// The event is refused and nothing changes.
    pub open spec fn refuses(self, after: RendererView, result: Result<FrameAction, AshError>)
        -> bool {
        &&& after == self
        &&& result matches Err(error)
        &&& error == AshError::FrameOutOfOrder
    }

    /// Why no frame can start, if so: the pipeline or the render pass is
    /// missing, or the current frame slot lacks its command buffer, its
    /// synchronization objects or its uniform buffer.
    pub open spec fn start_refusal(self) -> Option<AshError> {
        if self.pipeline is None {
            Some(AshError::PipelineUnavailable)
        } else if self.render_pass is None {
            Some(AshError::RenderPassUnavailable)
        } else if self.current_frame >= self.command_buffers.len() {
            Some(AshError::CommandBufferIndexOutOfRange(self.current_frame))
        } else if self.current_frame >= self.frame_syncs.len() {
            Some(AshError::FrameSyncIndexOutOfRange(self.current_frame))
        } else if self.current_frame >= self.uniform_buffers.len() {
            Some(AshError::UniformBufferIndexOutOfRange(self.current_frame))
        } else {
            None
        }
    }

    /// A resize is pending for an extent without area: the window is
    /// minimized.
    pub open spec fn resize_deferred(self) -> bool {
        self.resize_pending && (self.pending_extent matches Some(extent) && extent.zero_area())
    }

    /// What a pending resize asks for when a frame begins.
    pub open spec fn resize_decision(self) -> ResizeDecision {
        if !self.resize_pending {
            ResizeDecision::NotPending
        } else if self.resize_deferred() {
            ResizeDecision::Deferred
        } else if self.swapchain is Some {
            ResizeDecision::Rebuild
        } else {
            ResizeDecision::Settle
        }
    }

    /// What `Begin` does.
    ///
    /// While a resize is pending for an extent without area, the frame is
    /// skipped and nothing changes. A pending resize of a renderer with a
    /// swapchain starts the rebuild; that of a headless renderer, which
    /// has nothing to rebuild, sends the caller to wait for the frames in
    /// flight. Without a pending resize the frame starts: the superseded
    /// swapchains are flushed where a cleanup is pending, and the caller is
    /// sent to wait for the fence of the current frame slot.
    pub open spec fn begins(self, after: RendererView, result: Result<FrameAction, AshError>)
        -> bool {
        if self.phase != FramePhase::Idle {
            self.refuses(after, result)
        } else if self.resize_deferred() {
            &&& after == self
            &&& result matches Ok(FrameAction::Skip { wait_idle })
            &&& !wait_idle
        } else if self.resize_pending && self.swapchain is Some {
            &&& after == RendererView { phase: FramePhase::AwaitingSwapchain, ..self }
            &&& result matches Ok(FrameAction::Rebuild { fences })
            &&& fences@ == self.fences()
        } else if self.resize_pending {
            &&& after == RendererView { phase: FramePhase::AwaitingFrames, ..self }
            &&& result matches Ok(FrameAction::WaitForFrames { fences })
            &&& fences@ == self.fences()
        } else {
            match self.start_refusal() {
                Some(refusal) => {
                    &&& after == self
                    &&& result matches Err(error)
                    &&& error == refusal
                },
                None => {
                    &&& after == RendererView {
                        phase: FramePhase::AwaitingFence,
                        ..self.flushed_if_pending()
                    }
                    &&& result matches Ok(FrameAction::WaitFence { frame_index, fence, retired })
                    &&& frame_index == self.current_frame
                    &&& fence == self.frame_syncs[self.current_frame as int].in_flight
                    &&& retired@ == self.retired_if_pending()
                },
            }
        }
    }

    /// What `FramesCompleted` does: the resize of a headless renderer is
    /// settled, and the next frame can begin. The extent on record stays
    /// the one that was requested.
    pub open spec fn frames_completed(
        self,
        after: RendererView,
        result: Result<FrameAction, AshError>,
    ) -> bool {
        if !(self.phase is AwaitingFrames) {
            self.refuses(after, result)
        } else {
            &&& after == RendererView { resize_pending: false, phase: FramePhase::Idle, ..self }
            &&& result matches Ok(FrameAction::Rebuilt { writes })
            &&& writes@ == Seq::<DescriptorWrite>::empty()
        }
    }

    /// What the planning of the frame does: where a plan can be made, the
    /// caller is sent to record it; where not, the frame is given up.
    pub open spec fn records(
        self,
        after: RendererView,
        result: Result<FrameAction, AshError>,
        image_index: usize,
        acquired: bool,
    ) -> bool {
        match self.plan_refusal(self.current_frame) {
            Some(refusal) => {
                &&& after == self.idle()
                &&& result matches Err(error)
                &&& error == refusal
            },
            None => {
                &&& after == RendererView {
                    phase: FramePhase::Recording { image_index, acquired },
                    ..self
                }
                &&& result matches Ok(FrameAction::Record(plan))
                &&& self.plans(self.current_frame, image_index, acquired, plan)
            },
        }
    }

    /// What `FenceSignaled` does: the frame cycle of the descriptor
    /// allocator advances; a renderer with a swapchain goes on to acquire
    /// an image, a headless one draws to the image of its frame slot.
    pub open spec fn fence_signaled(
        self,
        after: RendererView,
        result: Result<FrameAction, AshError>,
    ) -> bool {
        if !(self.phase is AwaitingFence) {
            self.refuses(after, result)
        } else if self.swapchain is Some {
            &&& after == RendererView { phase: FramePhase::AwaitingImage, ..self.next_cycle() }
            &&& result matches Ok(FrameAction::AcquireImage { frame_index, semaphore })
            &&& frame_index == self.current_frame
            &&& semaphore == self.frame_syncs[self.current_frame as int].image_available
        } else if self.framebuffers.len() == 0 {
            &&& after == self.next_cycle().idle()
            &&& result matches Err(error)
            &&& error == AshError::FramebufferIndexOutOfRange(self.current_frame)
        } else {
            self.next_cycle().records(
                after,
                result,
                ((self.current_frame as int) % (self.framebuffers.len() as int)) as usize,
                false,
            )
        }
    }

    /// What a surface that became invalid does to the frame under way: the
    /// frame is abandoned, and a resize to the swapchain's own extent is
    /// requested.
    pub open spec fn invalidated(self, after: RendererView, result: Result<FrameAction, AshError>)
        -> bool {
        &&& after == self.requested(self.swapchain.unwrap().extent).idle()
        &&& result matches Ok(FrameAction::Skip { wait_idle })
        &&& wait_idle == !self.resize_pending
    }

    /// What an error of the device does to the frame under way: the frame
    /// is given up and the error is handed on.
    pub open spec fn fails(self, after: RendererView, result: Result<FrameAction, AshError>, code: i32)
        -> bool {
        &&& after == self.idle()
        &&& result matches Err(error)
        &&& error == AshError::Device(code)
    }

    /// What `ImageAcquired` does.
    pub open spec fn image_acquired(
        self,
        code: i32,
        image_index: u32,
        after: RendererView,
        result: Result<FrameAction, AshError>,
    ) -> bool {
        if !(self.phase is AwaitingImage) {
            self.refuses(after, result)
        } else {
            match surface_status(code) {
                SurfaceStatus::Failed => self.fails(after, result, code),
                SurfaceStatus::Invalidated => self.invalidated(after, result),
                SurfaceStatus::Ready => if image_index >= self.framebuffers.len() {
                    &&& after == self.idle()
                    &&& result matches Err(error)
                    &&& error == AshError::FramebufferIndexOutOfRange(image_index as usize)
                } else {
                    self.records(after, result, image_index as usize, true)
                },
            }
        }
    }

    /// What `Submitted` does: a frame that acquired its image goes on to
    /// present it; a headless frame is complete.
    pub open spec fn submitted(self, after: RendererView, result: Result<FrameAction, AshError>)
        -> bool {
        match self.phase {
            FramePhase::Recording { image_index, acquired } => if acquired {
                &&& after == RendererView {
                    phase: FramePhase::Presenting { presented: image_index as u32 },
                    ..self
                }
                &&& result matches Ok(FrameAction::Present { image_index: presented, wait_semaphore })
                &&& presented == image_index
                &&& wait_semaphore == self.frame_syncs[self.current_frame as int].render_finished
            } else {
                &&& after == self.advanced()
                &&& result matches Ok(FrameAction::Done { retired })
                &&& retired@ == Seq::<u64>::empty()
            },
            _ => self.refuses(after, result),
        }
    }

    /// What `Presented` does: after a successful present the superseded
    /// swapchains are flushed, where a cleanup is pending, and the frame is
    /// complete.
    pub open spec fn presented(
        self,
        code: i32,
        after: RendererView,
        result: Result<FrameAction, AshError>,
    ) -> bool {
        if !(self.phase is Presenting) {
            self.refuses(after, result)
        } else {
            match surface_status(code) {
                SurfaceStatus::Failed => self.fails(after, result, code),
                SurfaceStatus::Invalidated => self.invalidated(after, result),
                SurfaceStatus::Ready => {
                    &&& after == self.flushed_if_pending().advanced()
                    &&& result matches Ok(FrameAction::Done { retired })
                    &&& retired@ == self.retired_if_pending()
                },
            }
        }
    }

    /// What `Failed` does: whatever is under way is given up.
    pub open spec fn failed(
        self,
        code: i32,
        after: RendererView,
        result: Result<FrameAction, AshError>,
    ) -> bool {
        if self.phase is Idle {
            self.refuses(after, result)
        } else {
            self.fails(after, result, code)
        }
    }
}

impl RendererView {
    /// What an event does to the renderer, and what the renderer answers.
    pub open spec fn steps(
        self,
        event: FrameEvent,
        after: RendererView,
        result: Result<FrameAction, AshError>,
    ) -> bool {
        match event {
            FrameEvent::Begin => self.begins(after, result),
            FrameEvent::FenceSignaled => self.fence_signaled(after, result),
            FrameEvent::ImageAcquired { code, image_index } => self.image_acquired(
                code,
                image_index,
                after,
                result,
            ),
            FrameEvent::Submitted => self.submitted(after, result),
            FrameEvent::Presented { code } => self.presented(code, after, result),
            FrameEvent::SwapchainRecreated {
                swapchain,
                old_swapchain,
                image_views,
            } => self.swapchain_recreated(swapchain, old_swapchain, image_views@, after, result),
            FrameEvent::DepthBufferCreated { view } => self.depth_buffer_created(
                view,
                after,
                result,
            ),
            FrameEvent::RenderTargetsCreated {
                render_pass,
                framebuffers,
            } => self.render_targets_created(render_pass, framebuffers@, after, result),
            FrameEvent::FrameSyncsCreated { syncs } => self.frame_syncs_created(
                syncs@,
                after,
                result,
            ),
            FrameEvent::CommandBuffersAllocated { buffers } => self.command_buffers_allocated(
                buffers@,
                after,
                result,
            ),
            FrameEvent::UniformBuffersCreated { buffers } => self.uniform_buffers_created(
                buffers@,
                after,
                result,
            ),
            FrameEvent::FrameSetsAllocated { sets } => self.frame_sets_allocated(
                sets@,
                after,
                result,
            ),
            FrameEvent::FramesCompleted => self.frames_completed(after, result),
            FrameEvent::Failed { code } => self.failed(code, after, result),
        }
    }
}

impl RendererView {
    /// The renderer after its shutdown: nothing is registered, nothing is
    /// left to draw with.
    pub open spec fn shut_down(self) -> RendererView {
        RendererView {
            registry: self.registry.drained(),
            phase: FramePhase::Idle,
            draw_items: Seq::empty(),
            swapchain: None,
            render_pass: None,
            pipeline: None,
            depth_buffer: None,
            uniform_buffers: Seq::empty(),
            material_buffers: Seq::empty(),
            descriptors: None,
            mesh: None,
            old_swapchains: Seq::empty(),
            swapchain_cleanup_pending: false,
            ..self
        }
    }

    /// The renderer with the post-processing state `state`.
    pub open spec fn with_post_processing(self, state: PostProcessing) -> RendererView {
        RendererView { post_processing: state, ..self }
    }
}

} // verus!
