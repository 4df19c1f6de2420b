//! The renderer core: the state of the frame loop and of everything that is
//! rebuilt with the swapchain.
//!
//! The renderer is driven by events. The caller reports what happened on
//! the device, the renderer updates its books and answers with the next
//! action: wait for a fence, acquire an image, record and submit this plan,
//! present, or, after a resize, rebuild the objects that depend on the
//! swapchain, one kind after the other. An event that does not answer the
//! last action is refused, so the order of the protocol cannot be broken.

use std::collections::HashMap;
use vstd::prelude::*;
use crate::bindless::BindlessManager;
use crate::config::MsaaPreset;
use crate::descriptor_allocator::DescriptorAllocator;
use crate::descriptor_manager::{
    layout_bindings_spec, lemma_material_texture_slots, lemma_texture_set_has_one_binding,
    material_texture_writes, static_pool_size, texture_write, uniform_buffer_write,
    DescriptorManager, LayoutKind, TextureBinding, EXTRA_TEXTURE_SETS,
};
use crate::descriptor_set::DescriptorWrite;
use crate::draw::{
    build_draw_items, draw_views, make_draw_item, DrawItem, DrawItemView, MeshTextureTable,
    MeshTextures, RenderCommand,
};
use crate::error::AshError;
use crate::frame::{
    classify_surface_result, DrawCall, FrameAction, FrameEvent, FramePhase, FramePlan,
    FrameSets, FrameSync, FrameSyncIds, ResizeDecision, ShadowBinding, ShadowDraw, ShadowPass,
    SurfaceStatus, SwapchainInfo,
};
use crate::mesh::{
    law_registration_assigns_consecutive_indices, lemma_present_before_grows, BindlessIndices,
    Mesh, TextureBindingInfo,
};
use crate::rebuild::{
    frame_uniform_writes, register_framebuffers, register_slots, slot_ids, sync_ids,
};
use crate::registry::{DestroyCommand, RegistryView, ResourceId, ResourceKind, ResourceRegistry};
use crate::renderer_view::RendererView;
use crate::resources::{
    default_bindings, material_uniform_writes, RendererResources, HEADLESS_FRAME_COUNT,
    MAX_BINDLESS_RESOURCES,
};
use crate::surface::Extent2D;
use crate::texture::Texture;
use crate::texture_sets::{any_texture, bindings_of, is_prepared, prepared};
use crate::worker::{compute_worker_index, validate_worker_resources, worker_index_spec};

verus! {

broadcast use vstd::std_specs::hash::group_hash_axioms;

/// The width that a renderer without swapchain and without a requested
/// extent draws with.
pub const FALLBACK_WIDTH: u32 = 800;

/// The height that goes with [`FALLBACK_WIDTH`].
pub const FALLBACK_HEIGHT: u32 = 600;

/// The renderer core.
pub struct Renderer {
    pub(crate) resource_registry: ResourceRegistry,
    pub(crate) worker_count: usize,
    pub(crate) command_buffers: Vec<u64>,
    pub(crate) frame_syncs: Vec<FrameSync>,
    pub(crate) frame_sync_ids: Vec<FrameSyncIds>,
    pub(crate) current_frame: usize,
    pub(crate) phase: FramePhase,
    pub(crate) default_texture: Texture,
    pub(crate) draw_items: Vec<DrawItem>,
    pub(crate) swapchain: Option<SwapchainInfo>,
    pub(crate) render_pass: Option<u64>,
    pub(crate) render_pass_id: Option<ResourceId>,
    pub(crate) pipeline: Option<u64>,
    pub(crate) pipeline_layout: Option<u64>,
    pub(crate) depth_buffer: Option<u64>,
    pub(crate) depth_buffer_id: Option<ResourceId>,
    pub(crate) uniform_buffers: Vec<u64>,
    pub(crate) uniform_buffer_size: u64,
    pub(crate) material_buffers: Vec<u64>,
    pub(crate) descriptor_manager: Option<DescriptorManager>,
    pub(crate) bindless_manager: Option<BindlessManager>,
    pub(crate) framebuffers: Vec<u64>,
    pub(crate) framebuffer_ids: Vec<ResourceId>,
    pub(crate) swapchain_image_view_ids: Vec<ResourceId>,
    pub(crate) mesh: Option<Mesh>,
    pub(crate) material: u64,
    pub(crate) transform: u64,
    pub(crate) mesh_registry: HashMap<u32, String>,
    pub(crate) mesh_textures: MeshTextureTable,
    pub(crate) material_registry: HashMap<u32, u64>,
    pub(crate) old_swapchain_handles: Vec<u64>,
    pub(crate) swapchain_cleanup_pending: bool,
    pub(crate) resize_pending: bool,
    pub(crate) pending_extent: Option<Extent2D>,
    pub(crate) shadow: Option<ShadowPass>,
    pub(crate) post_processing: PostProcessing,
}

/// The state of multisampling and post-processing.
#[derive(Clone, Copy, Debug, PartialEq, Eq, Structural)]
pub struct PostProcessing {
    pub msaa_preset: MsaaPreset,
    pub tonemapping_enabled: bool,
    pub bloom_enabled: bool,
    /// The HDR framebuffer, once it is initialized.
    pub hdr_framebuffer: Option<u64>,
    /// The fullscreen pass, once it is initialized.
    pub fullscreen_pass: Option<u64>,
}

impl View for Renderer {
    type V = RendererView;

    closed spec fn view(&self) -> RendererView {
        RendererView {
            registry: self.resource_registry@,
            worker_count: self.worker_count,
            command_buffers: self.command_buffers@,
            frame_syncs: self.frame_syncs@,
            frame_sync_ids: self.frame_sync_ids@,
            current_frame: self.current_frame,
            phase: self.phase,
            default_texture: self.default_texture,
            draw_items: draw_views(self.draw_items@),
            swapchain: self.swapchain,
            render_pass: self.render_pass,
            render_pass_id: self.render_pass_id,
            pipeline: self.pipeline,
            pipeline_layout: self.pipeline_layout,
            depth_buffer: self.depth_buffer,
            depth_buffer_id: self.depth_buffer_id,
            uniform_buffers: self.uniform_buffers@,
            uniform_buffer_size: self.uniform_buffer_size,
            material_buffers: self.material_buffers@,
            descriptors: match self.descriptor_manager {
                Some(manager) => Some(manager@),
                None => None,
            },
            bindless: match self.bindless_manager {
                Some(table) => Some(table@),
                None => None,
            },
            framebuffers: self.framebuffers@,
            framebuffer_ids: self.framebuffer_ids@,
            image_view_ids: self.swapchain_image_view_ids@,
            mesh: self.mesh,
            material: self.material,
            transform: self.transform,
            mesh_registry: self.mesh_registry@,
            mesh_textures: self.mesh_textures@,
            material_registry: self.material_registry@,
            old_swapchains: self.old_swapchain_handles@,
            swapchain_cleanup_pending: self.swapchain_cleanup_pending,
            resize_pending: self.resize_pending,
            pending_extent: self.pending_extent,
            shadow: self.shadow,
            post_processing: self.post_processing,
        }
    }
}

impl Renderer {
    /// The renderer's invariant, see [`RendererView::wf`].
    pub open spec fn wf(&self) -> bool {
        self@.wf()
    }

    /// The frame slot of the next frame, or of the frame under way.
    pub fn current_frame(&self) -> (slot: usize)
        ensures
            slot == self@.current_frame,
    {
        self.current_frame
    }

    /// The number of frame slots.
    pub fn frame_slot_count(&self) -> (count: usize)
        ensures
            count == self@.frame_syncs.len(),
    {
        self.frame_syncs.len()
    }

    /// Whether a resize waits to be carried out.
    pub fn resize_pending(&self) -> (pending: bool)
        ensures
            pending == self@.resize_pending,
    {
        self.resize_pending
    }

    /// The extent that was requested last, or that the swapchain had when
    /// it was built.
    pub fn pending_extent(&self) -> (extent: Option<Extent2D>)
        ensures
            extent == self@.pending_extent,
    {
        self.pending_extent
    }

    /// Where the renderer stands in the protocol.
    pub fn phase(&self) -> (phase: FramePhase)
        ensures
            phase == self@.phase,
    {
        self.phase
    }

    /// Whether the renderer draws without presenting.
    pub fn is_headless(&self) -> (headless: bool)
        ensures
            headless == (self@.swapchain is None),
    {
        self.swapchain.is_none()
    }

    /// The number of workers.
    pub fn worker_count(&self) -> (count: usize)
        ensures
            count == self@.worker_count,
    {
        self.worker_count
    }

    /// The registry of the renderer's GPU objects.
    pub fn resource_registry(&self) -> (registry: &ResourceRegistry)
        ensures
            registry@ == self@.registry,
    {
        &self.resource_registry
    }

    /// The worker that serves the frame in slot `frame_index`.
    pub fn worker_index_for_frame(&self, frame_index: usize) -> (index: usize)
        ensures
            index == worker_index_spec(self@.worker_count as nat, frame_index as nat),
    {
        compute_worker_index(self.worker_count, frame_index)
    }

    /// Notes that the surface changed its size. The swapchain is rebuilt
    /// when the next frame begins, or later, as soon as the extent has an
    /// area. Answers whether this is the first request since the last
    /// rebuild; the caller then waits for the device to become idle.
    pub fn request_swapchain_resize(&mut self, new_extent: Extent2D) -> (first: bool)
        ensures
            final(self)@ == old(self)@.requested(new_extent),
            first == !old(self)@.resize_pending,
            old(self).wf() ==> final(self).wf(),
    {
        self.pending_extent = Some(new_extent);
        let first = !self.resize_pending;
        self.resize_pending = true;
        first
    }

    /// The completion fences of all frame slots, which the caller waits for
    /// before the swapchain is rebuilt.
    pub fn wait_for_inflight_frames(&self) -> (fences: Vec<u64>)
        ensures
            fences@ == self@.fences(),
    {
        let mut fences: Vec<u64> = Vec::new();
        let mut i: usize = 0;
        while i < self.frame_syncs.len()
            invariant
                i <= self.frame_syncs@.len(),
                fences@.len() == i,
                forall|j: int| 0 <= j < i ==> fences@[j] == self.frame_syncs@[j].in_flight,
            decreases self.frame_syncs@.len() - i,
        {
            fences.push(self.frame_syncs[i].in_flight);
            i += 1;
        }
        assert(fences@ =~= self@.fences());
        fences
    }

    /// Puts a superseded swapchain on the list of those that are destroyed
    /// later, when no present can refer to it any more. The null handle is
    /// passed over.
    pub(crate) fn defer_old_swapchain(&mut self, handle: u64)
        ensures
            final(self)@ == if handle == 0 {
                old(self)@
            } else {
                RendererView {
                    old_swapchains: old(self)@.old_swapchains.push(handle),
                    swapchain_cleanup_pending: true,
                    ..old(self)@
                }
            },
    {
        if handle == 0 {
            return ;
        }
        self.old_swapchain_handles.push(handle);
        self.swapchain_cleanup_pending = true;
    }

    /// Hands the superseded swapchains over for destruction and empties
    /// their list. Without a swapchain to destroy them through, they are
    /// dropped from the list and none is handed over.
    pub(crate) fn flush_old_swapchains(&mut self) -> (retired: Vec<u64>)
        ensures
            final(self)@ == old(self)@.flushed(),
            retired@ == old(self)@.retired(),
    {
        let mut retired: Vec<u64> = Vec::new();
        if self.swapchain.is_some() {
            std::mem::swap(&mut retired, &mut self.old_swapchain_handles);
        } else {
            self.old_swapchain_handles.clear();
        }
        self.swapchain_cleanup_pending = false;
        assert(self.old_swapchain_handles@ =~= Seq::<u64>::empty());
        retired
    }

    /// The flush that a frame makes: only while a cleanup is pending.
    fn flush_if_pending(&mut self) -> (retired: Vec<u64>)
        ensures
            final(self)@ == old(self)@.flushed_if_pending(),
            retired@ == old(self)@.retired_if_pending(),
    {
        if self.swapchain_cleanup_pending {
            self.flush_old_swapchains()
        } else {
            Vec::new()
        }
    }

    fn frame_sets(&self, frame_index: usize) -> (result: Result<Option<FrameSets>, AshError>)
        requires
            self.wf(),
        ensures
            result == self@.frame_sets(frame_index),
    {
        let manager = match &self.descriptor_manager {
            Some(manager) => manager,
            None => {
                return Ok(None);
            },
        };
        let worker = compute_worker_index(self.worker_count, frame_index);
        let frame_set = match manager.frame_set(frame_index) {
            Some(set) => set,
            None => {
                return Err(AshError::FrameSetUnavailable(frame_index));
            },
        };
        let material_set = match manager.material_set(worker) {
            Some(set) => set,
            None => {
                return Err(AshError::MaterialSetUnavailable(worker));
            },
        };
        let default_texture_set = manager.default_texture_array_set();
        let mut shadow: Option<ShadowBinding> = None;
        match self.shadow {
            Some(pass) => {
                match manager.shadow_set(frame_index) {
                    Some(set) => {
                        match manager.bind_shadow_map(
                            frame_index,
                            pass.depth_image_view,
                            pass.sampler,
                        ) {
                            Ok(write) => {
                                shadow = Some(ShadowBinding { set, write });
                            },
                            Err(error) => {
                                return Err(error);
                            },
                        }
                    },
                    None => {},
                }
            },
            None => {},
        }
        let bindless_set = match &self.bindless_manager {
            Some(table) => Some(table.descriptor_set()),
            None => None,
        };
        Ok(Some(FrameSets { frame_set, material_set, default_texture_set, shadow, bindless_set }))
    }

    fn draw_calls(&self) -> (draws: Vec<DrawCall>)
        ensures
            draws@.len() == self@.draw_items.len(),
            forall|i: int|
                0 <= i < self@.draw_items.len() ==> #[trigger] draws@[i] == self@.draw_call(i),
    {
        let default_set = match &self.descriptor_manager {
            Some(manager) => manager.default_texture_array_set(),
            None => 0,
        };
        let mut draws: Vec<DrawCall> = Vec::new();
        let mut i: usize = 0;
        while i < self.draw_items.len()
            invariant
                i <= self.draw_items@.len(),
                default_set == self@.default_set(),
                draws@.len() == i,
                forall|j: int| 0 <= j < i ==> #[trigger] draws@[j] == self@.draw_call(j),
            decreases self.draw_items@.len() - i,
        {
            let item = &self.draw_items[i];
            let texture_set = if item.texture_set != 0 {
                Some(item.texture_set)
            } else if default_set != 0 {
                Some(default_set)
            } else {
                None
            };
            let flags = item.texture_flags;
            let texture_sets = BindlessIndices {
                base_color: if flags.base_color {
                    0
                } else {
                    -1
                },
                normal: if flags.normal {
                    1
                } else {
                    -1
                },
                metallic_roughness: if flags.metallic_roughness {
                    2
                } else {
                    -1
                },
                occlusion: if flags.occlusion {
                    3
                } else {
                    -1
                },
                emissive: if flags.emissive {
                    4
                } else {
                    -1
                },
            };
            draws.push(
                DrawCall {
                    item: i,
                    texture_set,
                    texture_sets,
                    bindless_indices: item.bindless_indices,
                },
            );
            i += 1;
        }
        draws
    }

    /// Plans the frame in slot `frame_index` that draws to the image
    /// `image_index`: the objects to record with, the descriptor sets to
    /// bind, and one draw per draw item.
    pub(crate) fn plan_frame(&self, frame_index: usize, image_index: usize, acquired: bool) -> (result:
        Result<FramePlan, AshError>)
        requires
            self.wf(),
            frame_index < self@.command_buffers.len(),
            frame_index < self@.frame_syncs.len(),
            image_index < self@.framebuffers.len(),
        ensures
            match result {
                Ok(plan) => self@.plan_refusal(frame_index) is None && self@.plans(
                    frame_index,
                    image_index,
                    acquired,
                    plan,
                ),
                Err(error) => self@.plan_refusal(frame_index) == Some(error),
            },
    {
        let pipeline = match self.pipeline {
            Some(pipeline) => pipeline,
            None => {
                return Err(AshError::PipelineUnavailable);
            },
        };
        let render_pass = match self.render_pass {
            Some(render_pass) => render_pass,
            None => {
                return Err(AshError::RenderPassUnavailable);
            },
        };
        let pipeline_layout = match self.pipeline_layout {
            Some(layout) => layout,
            None => {
                return Err(AshError::PipelineLayoutUnavailable);
            },
        };
        let sets = match self.frame_sets(frame_index) {
            Ok(sets) => sets,
            Err(error) => {
                return Err(error);
            },
        };
        let extent = match self.swapchain {
            Some(swapchain) => swapchain.extent,
            None => match self.pending_extent {
                Some(extent) => extent,
                None => Extent2D { width: FALLBACK_WIDTH, height: FALLBACK_HEIGHT },
            },
        };
        let worker_index = compute_worker_index(self.worker_count, frame_index);
        let material_buffer = if worker_index < self.material_buffers.len() {
            Some(self.material_buffers[worker_index])
        } else {
            None
        };
        let shadow_pass = match self.shadow {
            Some(pass) => Some(
                ShadowDraw {
                    pass,
                    frame_set: match &self.descriptor_manager {
                        Some(manager) => manager.frame_set(frame_index),
                        None => None,
                    },
                },
            ),
            None => None,
        };
        let draws = self.draw_calls();
        Ok(
            FramePlan {
                frame_index,
                image_index,
                image_acquired: acquired,
                worker_index,
                command_buffer: self.command_buffers[frame_index],
                framebuffer: self.framebuffers[image_index],
                render_pass,
                pipeline,
                pipeline_layout,
                extent,
                material_buffer,
                shadow_pass,
                sets,
                draws,
                sync: self.frame_syncs[frame_index],
            },
        )
    }
}

impl Renderer {
    fn advance_frame(&mut self)
        requires
            old(self).wf(),
            old(self)@.in_frame(),
        ensures
            final(self).wf(),
            final(self)@ == old(self)@.advanced(),
    {
        let slots = self.command_buffers.len();
        self.current_frame = (self.current_frame + 1) % slots;
        self.phase = FramePhase::Idle;
    }

    /// Decides what a pending resize asks for when a frame begins.
    pub fn resize_if_needed(&self) -> (decision: ResizeDecision)
        ensures
            decision == self@.resize_decision(),
    {
        if !self.resize_pending {
            return ResizeDecision::NotPending;
        }
        let deferred = match self.pending_extent {
            Some(extent) => extent.is_zero_area(),
            None => false,
        };
        if deferred {
            ResizeDecision::Deferred
        } else if self.swapchain.is_some() {
            ResizeDecision::Rebuild
        } else {
            ResizeDecision::Settle
        }
    }

    fn begin_frame(&mut self) -> (result: Result<FrameAction, AshError>)
        requires
            old(self).wf(),
        ensures
            final(self).wf(),
            old(self)@.begins(final(self)@, result),
    {
        if self.phase != FramePhase::Idle {
            return Err(AshError::FrameOutOfOrder);
        }
        match self.resize_if_needed() {
            ResizeDecision::NotPending => {},
            ResizeDecision::Deferred => {
                return Ok(FrameAction::Skip { wait_idle: false });
            },
            ResizeDecision::Rebuild => {
                let fences = self.wait_for_inflight_frames();
                self.phase = FramePhase::AwaitingSwapchain;
                return Ok(FrameAction::Rebuild { fences });
            },
            ResizeDecision::Settle => {
                let fences = self.wait_for_inflight_frames();
                self.phase = FramePhase::AwaitingFrames;
                return Ok(FrameAction::WaitForFrames { fences });
            },
        }
        if self.pipeline.is_none() {
            return Err(AshError::PipelineUnavailable);
        }
        if self.render_pass.is_none() {
            return Err(AshError::RenderPassUnavailable);
        }
        let frame_index = self.current_frame;
        if frame_index >= self.command_buffers.len() {
            return Err(AshError::CommandBufferIndexOutOfRange(frame_index));
        }
        if frame_index >= self.frame_syncs.len() {
            return Err(AshError::FrameSyncIndexOutOfRange(frame_index));
        }
        if frame_index >= self.uniform_buffers.len() {
            return Err(AshError::UniformBufferIndexOutOfRange(frame_index));
        }
        let retired = self.flush_if_pending();
        self.phase = FramePhase::AwaitingFence;
        Ok(
            FrameAction::WaitFence {
                frame_index,
                fence: self.frame_syncs[frame_index].in_flight,
                retired,
            },
        )
    }

    fn next_cycle(&mut self)
        requires
            old(self).wf(),
        ensures
            final(self).wf(),
            final(self)@ == old(self)@.next_cycle(),
    {
        match self.descriptor_manager.take() {
            Some(manager) => {
                let mut manager = manager;
                manager.next_frame();
                self.descriptor_manager = Some(manager);
            },
            None => {},
        }
    }

    fn record_frame(&mut self, image_index: usize, acquired: bool) -> (result: Result<
        FrameAction,
        AshError,
    >)
        requires
            old(self).wf(),
            old(self)@.in_frame(),
            image_index < old(self)@.framebuffers.len(),
            acquired ==> image_index <= u32::MAX && old(self)@.swapchain is Some,
        ensures
            final(self).wf(),
            old(self)@.records(final(self)@, result, image_index, acquired),
    {
        match self.plan_frame(self.current_frame, image_index, acquired) {
            Ok(plan) => {
                self.phase = FramePhase::Recording { image_index, acquired };
                Ok(FrameAction::Record(plan))
            },
            Err(error) => {
                self.phase = FramePhase::Idle;
                Err(error)
            },
        }
    }

    fn on_fence_signaled(&mut self) -> (result: Result<FrameAction, AshError>)
        requires
            old(self).wf(),
        ensures
            final(self).wf(),
            old(self)@.fence_signaled(final(self)@, result),
    {
        match self.phase {
            FramePhase::AwaitingFence => {},
            _ => {
                return Err(AshError::FrameOutOfOrder);
            },
        }
        self.next_cycle();
        let frame_index = self.current_frame;
        if self.swapchain.is_some() {
            self.phase = FramePhase::AwaitingImage;
            return Ok(
                FrameAction::AcquireImage {
                    frame_index,
                    semaphore: self.frame_syncs[frame_index].image_available,
                },
            );
        }
        if self.framebuffers.len() == 0 {
            self.phase = FramePhase::Idle;
            return Err(AshError::FramebufferIndexOutOfRange(frame_index));
        }
        let image_index = frame_index % self.framebuffers.len();
        self.record_frame(image_index, false)
    }

    fn abandon_for_resize(&mut self) -> (result: Result<FrameAction, AshError>)
        requires
            old(self).wf(),
            old(self)@.swapchain is Some,
        ensures
            final(self).wf(),
            old(self)@.invalidated(final(self)@, result),
    {
        let extent = match self.swapchain {
            Some(swapchain) => swapchain.extent,
            None => Extent2D { width: FALLBACK_WIDTH, height: FALLBACK_HEIGHT },
        };
        let wait_idle = self.request_swapchain_resize(extent);
        self.phase = FramePhase::Idle;
        Ok(FrameAction::Skip { wait_idle })
    }

    fn on_image_acquired(&mut self, code: i32, image_index: u32) -> (result: Result<
        FrameAction,
        AshError,
    >)
        requires
            old(self).wf(),
        ensures
            final(self).wf(),
            old(self)@.image_acquired(code, image_index, final(self)@, result),
    {
        match self.phase {
            FramePhase::AwaitingImage => {},
            _ => {
                return Err(AshError::FrameOutOfOrder);
            },
        }
        match classify_surface_result(code) {
            SurfaceStatus::Failed => {
                self.phase = FramePhase::Idle;
                Err(AshError::Device(code))
            },
            SurfaceStatus::Invalidated => self.abandon_for_resize(),
            SurfaceStatus::Ready => {
                let index = image_index as usize;
                if index >= self.framebuffers.len() {
                    self.phase = FramePhase::Idle;
                    return Err(AshError::FramebufferIndexOutOfRange(index));
                }
                self.record_frame(index, true)
            },
        }
    }

    fn on_submitted(&mut self) -> (result: Result<FrameAction, AshError>)
        requires
            old(self).wf(),
        ensures
            final(self).wf(),
            old(self)@.submitted(final(self)@, result),
    {
        match self.phase {
            FramePhase::Recording { image_index, acquired } => {
                if acquired {
                    let presented = image_index as u32;
                    self.phase = FramePhase::Presenting { presented };
                    Ok(
                        FrameAction::Present {
                            image_index: presented,
                            wait_semaphore: self.frame_syncs[self.current_frame].render_finished,
                        },
                    )
                } else {
                    self.advance_frame();
                    Ok(FrameAction::Done { retired: Vec::new() })
                }
            },
            _ => Err(AshError::FrameOutOfOrder),
        }
    }

    fn on_presented(&mut self, code: i32) -> (result: Result<FrameAction, AshError>)
        requires
            old(self).wf(),
        ensures
            final(self).wf(),
            old(self)@.presented(code, final(self)@, result),
    {
        match self.phase {
            FramePhase::Presenting { presented } => {},
            _ => {
                return Err(AshError::FrameOutOfOrder);
            },
        }
        match classify_surface_result(code) {
            SurfaceStatus::Failed => {
                self.phase = FramePhase::Idle;
                Err(AshError::Device(code))
            },
            SurfaceStatus::Invalidated => self.abandon_for_resize(),
            SurfaceStatus::Ready => {
                let retired = self.flush_if_pending();
                self.advance_frame();
                Ok(FrameAction::Done { retired })
            },
        }
    }

    fn on_frames_completed(&mut self) -> (result: Result<FrameAction, AshError>)
        requires
            old(self).wf(),
        ensures
            final(self).wf(),
            old(self)@.frames_completed(final(self)@, result),
    {
        match self.phase {
            FramePhase::AwaitingFrames => {},
            _ => {
                return Err(AshError::FrameOutOfOrder);
            },
        }
        self.resize_pending = false;
        self.phase = FramePhase::Idle;
        Ok(FrameAction::Rebuilt { writes: Vec::new() })
    }

    fn on_failed(&mut self, code: i32) -> (result: Result<FrameAction, AshError>)
        requires
            old(self).wf(),
        ensures
            final(self).wf(),
            old(self)@.failed(code, final(self)@, result),
    {
        match self.phase {
            FramePhase::Idle => Err(AshError::FrameOutOfOrder),
            _ => {
                self.phase = FramePhase::Idle;
                Err(AshError::Device(code))
            },
        }
    }
}

impl Renderer {
    fn give_up(&mut self, refusal: AshError) -> (result: Result<FrameAction, AshError>)
        requires
            old(self).wf(),
        ensures
            final(self).wf(),
            old(self)@.gives_up(final(self)@, result, refusal),
    {
        self.phase = FramePhase::Idle;
        Err(refusal)
    }

    fn on_swapchain_recreated(
        &mut self,
        swapchain: SwapchainInfo,
        old_swapchain: u64,
        image_views: &Vec<u64>,
    ) -> (result: Result<FrameAction, AshError>)
        requires
            old(self).wf(),
        ensures
            final(self).wf(),
            old(self)@.swapchain_recreated(
                swapchain,
                old_swapchain,
                image_views@,
                final(self)@,
                result,
            ),
    {
        match self.phase {
            FramePhase::AwaitingSwapchain => {},
            _ => {
                return Err(AshError::FrameOutOfOrder);
            },
        }
        self.swapchain = Some(swapchain);
        self.defer_old_swapchain(old_swapchain);
        if image_views.len() != swapchain.image_count {
            return self.give_up(
                AshError::ImageCountMismatch {
                    expected: swapchain.image_count,
                    actual: image_views.len(),
                },
            );
        }
        if self.resource_registry.remaining_ids() < image_views.len() as u64 {
            return self.give_up(AshError::RegistryExhausted);
        }
        let mut ids: Vec<ResourceId> = Vec::new();
        ids.append(&mut self.framebuffer_ids);
        match self.render_pass_id.take() {
            Some(id) => {
                ids.push(id);
            },
            None => {},
        }
        ids.append(&mut self.swapchain_image_view_ids);
        match self.depth_buffer_id.take() {
            Some(id) => {
                ids.push(id);
            },
            None => {},
        }
        assert(ids@ =~= old(self)@.teardown_ids());
        let mut refused: Vec<AshError> = Vec::new();
        let destroy = self.resource_registry.cleanup_each(&ids, &mut refused);
        assert(refused@ =~= old(self)@.registry.refusals_of_each(old(self)@.teardown_ids()));
        self.framebuffers.clear();
        self.render_pass = None;
        self.depth_buffer = None;
        match self.resource_registry.register_each(ResourceKind::ImageView, image_views) {
            Ok(view_ids) => {
                self.swapchain_image_view_ids = view_ids;
            },
            Err(_) => vstd::pervasive::unreached(),
        }
        self.phase = FramePhase::AwaitingDepthBuffer;
        Ok(FrameAction::CreateDepthBuffer { extent: swapchain.extent, destroy, refused })
    }

    fn on_depth_buffer_created(&mut self, view: u64) -> (result: Result<FrameAction, AshError>)
        requires
            old(self).wf(),
        ensures
            final(self).wf(),
            old(self)@.depth_buffer_created(view, final(self)@, result),
    {
        match self.phase {
            FramePhase::AwaitingDepthBuffer => {},
            _ => {
                return Err(AshError::FrameOutOfOrder);
            },
        }
        if self.resource_registry.remaining_ids() == 0 {
            return self.give_up(AshError::RegistryExhausted);
        }
        let swapchain = match self.swapchain {
            Some(swapchain) => swapchain,
            None => {
                return self.give_up(AshError::FrameOutOfOrder);
            },
        };
        let none: Vec<ResourceId> = Vec::new();
        let id = self.resource_registry.register_live(ResourceKind::ImageView, view, &none);
        assert(none@ =~= Seq::<ResourceId>::empty());
        self.depth_buffer = Some(view);
        self.depth_buffer_id = Some(id);
        self.phase = FramePhase::AwaitingRenderTargets;
        Ok(
            FrameAction::CreateRenderTargets {
                extent: swapchain.extent,
                format: swapchain.format,
                image_count: swapchain.image_count,
                depth_view: view,
            },
        )
    }

    fn register_framebuffers(
        registry: &mut ResourceRegistry,
        framebuffers: &Vec<u64>,
        render_pass: ResourceId,
        depth_buffer: ResourceId,
        image_views: &Vec<ResourceId>,
    ) -> (ids: Vec<ResourceId>)
        requires
            old(registry).wf(),
            framebuffers@.len() == image_views@.len(),
            old(registry)@.next_id + framebuffers@.len() <= u64::MAX,
            old(registry)@.contains(render_pass),
            old(registry)@.contains(depth_buffer),
            forall|i: int|
                0 <= i < image_views@.len() ==> old(registry)@.contains(#[trigger] image_views@[i]),
        ensures
            final(registry).wf(),
            final(registry)@ == register_framebuffers(
                old(registry)@,
                framebuffers@,
                render_pass,
                depth_buffer,
                image_views@,
            ),
            ids@ == Seq::new(
                framebuffers@.len(),
                |i: int| ResourceId((old(registry)@.next_id + i) as u64),
            ),
            final(registry)@.next_id == old(registry)@.next_id + framebuffers@.len(),
            forall|other: ResourceId|
                old(registry)@.contains(other) ==> final(registry)@.contains(other),
    {
        let mut ids: Vec<ResourceId> = Vec::new();
        let mut i: usize = 0;
        assert(framebuffers@.take(0) =~= Seq::<u64>::empty());
        while i < framebuffers.len()
            invariant
                i <= framebuffers@.len(),
                framebuffers@.len() == image_views@.len(),
                registry.wf(),
                old(registry)@.next_id + framebuffers@.len() <= u64::MAX,
                registry@.next_id == old(registry)@.next_id + i,
                registry@ == register_framebuffers(
                    old(registry)@,
                    framebuffers@.take(i as int),
                    render_pass,
                    depth_buffer,
                    image_views@,
                ),
                ids@ == Seq::new(i as nat, |j: int| ResourceId((old(registry)@.next_id + j) as u64)),
                forall|other: ResourceId|
                    old(registry)@.contains(other) ==> registry@.contains(other),
                old(registry)@.contains(render_pass),
                old(registry)@.contains(depth_buffer),
                forall|j: int|
                    0 <= j < image_views@.len() ==> old(registry)@.contains(
                        #[trigger] image_views@[j],
                    ),
            decreases framebuffers@.len() - i,
        {
            let mut dependencies: Vec<ResourceId> = Vec::new();
            dependencies.push(render_pass);
            dependencies.push(depth_buffer);
            dependencies.push(image_views[i]);
            proof {
                assert(dependencies@ =~= seq![render_pass, depth_buffer, image_views@[i as int]]);
                assert(old(registry)@.contains(image_views@[i as int]));
                let next = framebuffers@.take(i + 1);
                assert(next.drop_last() =~= framebuffers@.take(i as int));
                assert(next.last() == framebuffers@[i as int]);
            }
            let id = registry.register_live(
                ResourceKind::Framebuffer,
                framebuffers[i],
                &dependencies,
            );
            ids.push(id);
            i += 1;
            assert(ids@ =~= Seq::new(
                i as nat,
                |j: int| ResourceId((old(registry)@.next_id + j) as u64),
            ));
        }
        assert(framebuffers@.take(i as int) =~= framebuffers@);
        ids
    }

    fn collect_sync_ids(slots: &Vec<FrameSyncIds>) -> (ids: Vec<ResourceId>)
        ensures
            ids@ == sync_ids(slots@),
    {
        let mut ids: Vec<ResourceId> = Vec::new();
        let mut i: usize = 0;
        assert(slots@.take(0) =~= Seq::<FrameSyncIds>::empty());
        while i < slots.len()
            invariant
                i <= slots@.len(),
                ids@ == sync_ids(slots@.take(i as int)),
            decreases slots@.len() - i,
        {
            proof {
                let next = slots@.take(i + 1);
                assert(next.drop_last() =~= slots@.take(i as int));
                assert(next.last() == slots@[i as int]);
            }
            let ghost before = ids@;
            ids.push(slots[i].image_available);
            ids.push(slots[i].render_finished);
            ids.push(slots[i].in_flight);
            assert(ids@ =~= before + seq![
                slots@[i as int].image_available,
                slots@[i as int].render_finished,
                slots@[i as int].in_flight,
            ]);
            i += 1;
        }
        assert(slots@.take(i as int) =~= slots@);
        ids
    }

    fn on_render_targets_created(&mut self, render_pass: u64, framebuffers: Vec<u64>) -> (result:
        Result<FrameAction, AshError>)
        requires
            old(self).wf(),
        ensures
            final(self).wf(),
            old(self)@.render_targets_created(render_pass, framebuffers@, final(self)@, result),
    {
        match self.phase {
            FramePhase::AwaitingRenderTargets => {},
            _ => {
                return Err(AshError::FrameOutOfOrder);
            },
        }
        let depth_id = match self.depth_buffer_id {
            Some(id) => id,
            None => {
                return self.give_up(AshError::DepthBufferUnavailable);
            },
        };
        if framebuffers.len() != self.swapchain_image_view_ids.len() {
            return self.give_up(
                AshError::ImageCountMismatch {
                    expected: self.swapchain_image_view_ids.len(),
                    actual: framebuffers.len(),
                },
            );
        }
        let room = self.resource_registry.remaining_ids();
        if room == 0 || room - 1 < framebuffers.len() as u64 {
            return self.give_up(AshError::RegistryExhausted);
        }
        let none: Vec<ResourceId> = Vec::new();
        assert(none@ =~= Seq::<ResourceId>::empty());
        let pass_id = self.resource_registry.register_live(
            ResourceKind::RenderPass,
            render_pass,
            &none,
        );
        let framebuffer_ids = Self::register_framebuffers(
            &mut self.resource_registry,
            &framebuffers,
            pass_id,
            depth_id,
            &self.swapchain_image_view_ids,
        );
        assert(framebuffer_ids@ =~= Seq::new(
            framebuffers@.len(),
            |i: int| ResourceId((old(self)@.registry.next_id + 1 + i) as u64),
        ));
        let ids = Self::collect_sync_ids(&self.frame_sync_ids);
        let mut refused: Vec<AshError> = Vec::new();
        let ghost built = self.resource_registry@;
        let destroy = self.resource_registry.cleanup_each(&ids, &mut refused);
        assert(refused@ =~= built.refusals_of_each(sync_ids(old(self)@.frame_sync_ids)));
        let count = framebuffers.len();
        self.render_pass = Some(render_pass);
        self.render_pass_id = Some(pass_id);
        self.framebuffers = framebuffers;
        self.framebuffer_ids = framebuffer_ids;
        self.frame_syncs.clear();
        self.frame_sync_ids.clear();
        self.phase = FramePhase::AwaitingFrameSyncs;
        Ok(FrameAction::CreateFrameSyncs { count, destroy, refused })
    }

    fn register_frame_syncs(registry: &mut ResourceRegistry, syncs: &Vec<FrameSync>) -> (ids: Vec<
        FrameSyncIds,
    >)
        requires
            old(registry).wf(),
            old(registry)@.next_id + 3 * syncs@.len() <= u64::MAX,
        ensures
            final(registry).wf(),
            final(registry)@ == register_slots(old(registry)@, syncs@),
            ids@ == slot_ids(old(registry)@.next_id as int, syncs@.len()),
            final(registry)@.next_id == old(registry)@.next_id + 3 * syncs@.len(),
            forall|other: ResourceId|
                old(registry)@.contains(other) ==> final(registry)@.contains(other),
    {
        let none: Vec<ResourceId> = Vec::new();
        let mut ids: Vec<FrameSyncIds> = Vec::new();
        let mut i: usize = 0;
        assert(syncs@.take(0) =~= Seq::<FrameSync>::empty());
        while i < syncs.len()
            invariant
                i <= syncs@.len(),
                none@ == Seq::<ResourceId>::empty(),
                registry.wf(),
                old(registry)@.next_id + 3 * syncs@.len() <= u64::MAX,
                registry@.next_id == old(registry)@.next_id + 3 * i,
                registry@ == register_slots(old(registry)@, syncs@.take(i as int)),
                ids@ == slot_ids(old(registry)@.next_id as int, i as nat),
                forall|other: ResourceId|
                    old(registry)@.contains(other) ==> registry@.contains(other),
            decreases syncs@.len() - i,
        {
            proof {
                let next = syncs@.take(i + 1);
                assert(next.drop_last() =~= syncs@.take(i as int));
                assert(next.last() == syncs@[i as int]);
            }
            let sync = syncs[i];
            let image_available = registry.register_live(
                ResourceKind::Semaphore,
                sync.image_available,
                &none,
            );
            let render_finished = registry.register_live(
                ResourceKind::Semaphore,
                sync.render_finished,
                &none,
            );
            let in_flight = registry.register_live(ResourceKind::Fence, sync.in_flight, &none);
            ids.push(FrameSyncIds { image_available, render_finished, in_flight });
            i += 1;
            assert(ids@ =~= slot_ids(old(registry)@.next_id as int, i as nat));
        }
        assert(syncs@.take(i as int) =~= syncs@);
        ids
    }

    fn on_frame_syncs_created(&mut self, syncs: Vec<FrameSync>) -> (result: Result<
        FrameAction,
        AshError,
    >)
        requires
            old(self).wf(),
        ensures
            final(self).wf(),
            old(self)@.frame_syncs_created(syncs@, final(self)@, result),
    {
        match self.phase {
            FramePhase::AwaitingFrameSyncs => {},
            _ => {
                return Err(AshError::FrameOutOfOrder);
            },
        }
        if syncs.len() != self.framebuffers.len() {
            return self.give_up(
                AshError::ImageCountMismatch {
                    expected: self.framebuffers.len(),
                    actual: syncs.len(),
                },
            );
        }
        if self.resource_registry.remaining_ids() / 3 < syncs.len() as u64 {
            return self.give_up(AshError::RegistryExhausted);
        }
        let ids = Self::register_frame_syncs(&mut self.resource_registry, &syncs);
        self.frame_syncs = syncs;
        self.frame_sync_ids = ids;
        self.current_frame = 0;
        self.phase = FramePhase::AwaitingCommandBuffers;
        Ok(FrameAction::AllocateCommandBuffers { count: self.framebuffers.len() })
    }

    fn on_command_buffers_allocated(&mut self, buffers: Vec<u64>) -> (result: Result<
        FrameAction,
        AshError,
    >)
        requires
            old(self).wf(),
        ensures
            final(self).wf(),
            old(self)@.command_buffers_allocated(buffers@, final(self)@, result),
    {
        match self.phase {
            FramePhase::AwaitingCommandBuffers => {},
            _ => {
                return Err(AshError::FrameOutOfOrder);
            },
        }
        if buffers.len() != self.framebuffers.len() {
            return self.give_up(
                AshError::ImageCountMismatch {
                    expected: self.framebuffers.len(),
                    actual: buffers.len(),
                },
            );
        }
        self.command_buffers = buffers;
        self.current_frame = 0;
        let mut release: Vec<u64> = Vec::new();
        std::mem::swap(&mut release, &mut self.uniform_buffers);
        self.phase = FramePhase::AwaitingUniformBuffers;
        Ok(FrameAction::CreateUniformBuffers { count: self.framebuffers.len(), release })
    }

    fn settle(&mut self)
        requires
            old(self).wf(),
            old(self)@.slots_rebuilt(),
        ensures
            final(self).wf(),
            final(self)@ == old(self)@.settled(),
    {
        self.resize_pending = false;
        match self.swapchain {
            Some(swapchain) => {
                self.pending_extent = Some(swapchain.extent);
            },
            None => {},
        }
        self.phase = FramePhase::Idle;
    }

    fn on_uniform_buffers_created(&mut self, buffers: Vec<u64>) -> (result: Result<
        FrameAction,
        AshError,
    >)
        requires
            old(self).wf(),
        ensures
            final(self).wf(),
            old(self)@.uniform_buffers_created(buffers@, final(self)@, result),
    {
        match self.phase {
            FramePhase::AwaitingUniformBuffers => {},
            _ => {
                return Err(AshError::FrameOutOfOrder);
            },
        }
        if buffers.len() != self.framebuffers.len() {
            return self.give_up(
                AshError::ImageCountMismatch {
                    expected: self.framebuffers.len(),
                    actual: buffers.len(),
                },
            );
        }
        let layout = match &self.descriptor_manager {
            Some(manager) => manager.frame_layout(),
            None => {
                self.uniform_buffers = buffers;
                self.settle();
                return Ok(FrameAction::Rebuilt { writes: Vec::new() });
            },
        };
        let count = self.frame_syncs.len();
        if count > 0xffff_ffff {
            return self.give_up(AshError::CountTooLarge(count));
        }
        self.uniform_buffers = buffers;
        self.phase = FramePhase::AwaitingFrameSets;
        Ok(FrameAction::AllocateFrameSets { count, layout })
    }

    fn bind_frame_uniforms(manager: &DescriptorManager, buffers: &Vec<u64>, size: u64) -> (writes:
        Vec<DescriptorWrite>)
        requires
            manager.wf(),
        ensures
            writes@ == frame_uniform_writes(
                Seq::new(manager@.frame_sets.len(), |i: int| manager@.frame_sets[i].handle),
                buffers@,
                size,
            ),
    {
        let ghost sets = Seq::new(
            manager@.frame_sets.len(),
            |i: int| manager@.frame_sets[i].handle,
        );
        let mut writes: Vec<DescriptorWrite> = Vec::new();
        let mut index: usize = 0;
        while index < manager.frame_set_count() && index < buffers.len()
            invariant
                manager.wf(),
                index <= manager@.frame_sets.len(),
                index <= buffers@.len(),
                writes@.len() == index,
                forall|j: int|
                    0 <= j < index ==> writes@[j] == uniform_buffer_write(
                        manager@.frame_sets[j].handle,
                        buffers@[j],
                        size,
                    ),
            decreases manager@.frame_sets.len() - index,
        {
            match manager.bind_frame_uniform(index, buffers[index], size) {
                Ok(write) => {
                    writes.push(write);
                },
                Err(_) => vstd::pervasive::unreached(),
            }
            index += 1;
        }
        assert(writes@ =~= frame_uniform_writes(sets, buffers@, size));
        writes
    }

    fn bind_material_uniforms(manager: &DescriptorManager, buffers: &Vec<u64>, size: u64) -> (writes:
        Vec<DescriptorWrite>)
        requires
            manager.wf(),
            buffers@.len() <= manager@.material_sets.len(),
        ensures
            writes@ == material_uniform_writes(
                Seq::new(manager@.material_sets.len(), |i: int| manager@.material_sets[i].handle),
                buffers@,
                size,
            ),
    {
        let ghost sets = Seq::new(
            manager@.material_sets.len(),
            |i: int| manager@.material_sets[i].handle,
        );
        let mut writes: Vec<DescriptorWrite> = Vec::new();
        let mut index: usize = 0;
        while index < buffers.len()
            invariant
                manager.wf(),
                buffers@.len() <= manager@.material_sets.len(),
                index <= buffers@.len(),
                writes@.len() == index,
                forall|j: int|
                    0 <= j < index ==> writes@[j] == uniform_buffer_write(
                        manager@.material_sets[j].handle,
                        buffers@[j],
                        size,
                    ),
            decreases buffers@.len() - index,
        {
            match manager.bind_material_uniform(index, buffers[index], size) {
                Ok(write) => {
                    writes.push(write);
                },
                Err(_) => vstd::pervasive::unreached(),
            }
            index += 1;
        }
        assert(writes@ =~= material_uniform_writes(sets, buffers@, size));
        writes
    }

    fn on_frame_sets_allocated(&mut self, sets: Vec<u64>) -> (result: Result<FrameAction, AshError>)
        requires
            old(self).wf(),
        ensures
            final(self).wf(),
            old(self)@.frame_sets_allocated(sets@, final(self)@, result),
    {
        match self.phase {
            FramePhase::AwaitingFrameSets => {},
            _ => {
                return Err(AshError::FrameOutOfOrder);
            },
        }
        let count = self.frame_syncs.len();
        let mut manager = match self.descriptor_manager.take() {
            Some(manager) => manager,
            None => {
                return self.give_up(AshError::DescriptorManagerUnavailable);
            },
        };
        if count > 0xffff_ffff {
            self.descriptor_manager = Some(manager);
            return self.give_up(AshError::CountTooLarge(count));
        }
        match manager.recreate_frame_sets(count as u32, &sets) {
            Ok(()) => {},
            Err(error) => {
                self.descriptor_manager = Some(manager);
                self.phase = FramePhase::Idle;
                return Err(error);
            },
        }
        let writes = Self::bind_frame_uniforms(
            &manager,
            &self.uniform_buffers,
            self.uniform_buffer_size,
        );
        proof {
            assert(Seq::new(manager@.frame_sets.len(), |i: int| manager@.frame_sets[i].handle)
                =~= sets@);
        }
        self.descriptor_manager = Some(manager);
        self.settle();
        Ok(FrameAction::Rebuilt { writes })
    }
}

impl Renderer {
    /// Takes one step of a frame, or of the rebuild that a resize asks
    /// for: the renderer takes note of `event` and answers with the action
    /// that the caller carries out next.
    ///
    /// A frame runs from `Begin` over the wait for the fence of its slot,
    /// the acquire (left out in headless mode), recording and submission to
    /// the present (left out as well in headless mode); only then the next
    /// frame slot becomes current. An acquire or a present that finds the
    /// surface out of date or suboptimal abandons the frame and requests a
    /// resize; that is no error. While a resize is pending for an extent
    /// without area, `Begin` skips the frame and changes nothing. A
    /// pending resize with area is carried out before the frame: the
    /// frames in flight are waited for and, where there is a swapchain,
    /// everything that hangs on it is rebuilt.
    ///
    /// An event that does not answer the action asked for last is refused
    /// with `FrameOutOfOrder`, and nothing changes.
    pub fn render_frame(&mut self, event: FrameEvent) -> (result: Result<FrameAction, AshError>)
        requires
            old(self).wf(),
        ensures
            final(self).wf(),
            old(self)@.steps(event, final(self)@, result),
    {
        match event {
            FrameEvent::Begin => self.begin_frame(),
            FrameEvent::FenceSignaled => self.on_fence_signaled(),
            FrameEvent::ImageAcquired { code, image_index } => self.on_image_acquired(
                code,
                image_index,
            ),
            FrameEvent::Submitted => self.on_submitted(),
            FrameEvent::Presented { code } => self.on_presented(code),
            FrameEvent::SwapchainRecreated {
                swapchain,
                old_swapchain,
                image_views,
            } => self.on_swapchain_recreated(swapchain, old_swapchain, &image_views),
            FrameEvent::DepthBufferCreated { view } => self.on_depth_buffer_created(view),
            FrameEvent::RenderTargetsCreated {
                render_pass,
                framebuffers,
            } => self.on_render_targets_created(render_pass, framebuffers),
            FrameEvent::FrameSyncsCreated { syncs } => self.on_frame_syncs_created(syncs),
            FrameEvent::CommandBuffersAllocated { buffers } => self.on_command_buffers_allocated(
                buffers,
            ),
            FrameEvent::UniformBuffersCreated { buffers } => self.on_uniform_buffers_created(
                buffers,
            ),
            FrameEvent::FrameSetsAllocated { sets } => self.on_frame_sets_allocated(sets),
            FrameEvent::FramesCompleted => self.on_frames_completed(),
            FrameEvent::Failed { code } => self.on_failed(code),
        }
    }
}

/// What the registration of a mesh hands back: the writes that fill its
/// texture set, and the reason why the texture set could not be prepared,
/// if so; the mesh is registered in either case.
#[derive(Debug)]
pub struct MeshRegistration {
    pub writes: Vec<DescriptorWrite>,
    pub texture_error: Option<AshError>,
}

impl Renderer {
    /// Prepares the texture set of a mesh, see [`prepared`]. `native` is
    /// the handle of a material texture set that the device allocated for
    /// the case that the mesh needs a set of its own.
    pub fn prepare_texture_set(
        descriptor_manager: &mut DescriptorManager,
        existing: Option<u64>,
        binding: TextureBindingInfo,
        native: u64,
    ) -> (result: Result<(u64, Vec<DescriptorWrite>), AshError>)
        requires
            old(descriptor_manager).wf(),
        ensures
            final(descriptor_manager).wf(),
            final(descriptor_manager)@ == prepared(
                old(descriptor_manager)@,
                existing,
                binding,
                native,
            ).manager,
            is_prepared(
                result,
                prepared(old(descriptor_manager)@, existing, binding, native).result,
            ),
    {
        let default_set = descriptor_manager.default_texture_array_set();
        if !binding.has_any_texture() {
            return Ok((default_set, Vec::new()));
        }
        let reused = match existing {
            Some(set) => if set != default_set {
                Some(set)
            } else {
                None
            },
            None => None,
        };
        let set = match reused {
            Some(set) => set,
            None => match descriptor_manager.allocate_material_texture_set(native) {
                Ok(set) => set,
                Err(error) => {
                    return Err(error);
                },
            },
        };
        let bindings = binding.descriptor_bindings();
        assert(bindings@ =~= bindings_of(binding));
        proof {
            let manager = descriptor_manager@;
            match manager.material_texture_descriptor(set) {
                Some(descriptor) => {
                    if reused is None {
                        assert(manager.dynamic_sets.contains_key(set));
                    }
                    if descriptor.bindings == layout_bindings_spec(LayoutKind::MaterialTexture) {
                        assert forall|k: int| 0 <= k < 5 implies texture_write(
                            descriptor,
                            #[trigger] bindings@[k],
                        ) == Ok::<DescriptorWrite, AshError>(
                            material_texture_writes(set, bindings@)[k],
                        ) by {
                            lemma_material_texture_slots(descriptor, bindings@[k]);
                        }
                    } else {
                        lemma_texture_set_has_one_binding(descriptor, bindings@[0]);
                        lemma_texture_set_has_one_binding(descriptor, bindings@[1]);
                    }
                },
                None => {},
            }
        }
        match descriptor_manager.bind_material_textures(set, &bindings) {
            Ok(writes) => {
                assert(writes@ =~= material_texture_writes(set, bindings@));
                Ok((set, writes))
            },
            Err(error) => Err(error),
        }
    }

    /// Whether preparing the texture set of this mesh will take a new set
    /// from the static pool: the mesh brings a texture and has no set of
    /// its own yet.
    pub fn needs_texture_set(&self, key: &String, binding: &TextureBindingInfo) -> (needed: bool)
        ensures
            needed == (any_texture(binding.flags) && (self@.existing_set(key@) is None
                || self@.existing_set(key@) == Some(self@.default_set()))),
    {
        if !binding.has_any_texture() {
            return false;
        }
        let default_set = match &self.descriptor_manager {
            Some(manager) => manager.default_texture_array_set(),
            None => 0,
        };
        match self.mesh_textures.get(key) {
            Some(found) => found.texture_set == default_set,
            None => true,
        }
    }

    /// Prepares the texture set of the mesh `key`, keeping the set that the
    /// mesh has on record. Refused when the renderer has no descriptor
    /// manager.
    pub fn update_mesh_texture_set(&mut self, key: &String, binding: TextureBindingInfo, native: u64)
        -> (result: Result<(u64, Vec<DescriptorWrite>), AshError>)
        requires
            old(self).wf(),
        ensures
            final(self).wf(),
            old(self)@.updates_texture_set(key@, binding, native, final(self)@, result),
    {
        let existing = match self.mesh_textures.get(key) {
            Some(found) => Some(found.texture_set),
            None => None,
        };
        let mut manager = match self.descriptor_manager.take() {
            Some(manager) => manager,
            None => {
                return Err(AshError::DescriptorManagerUnavailable);
            },
        };
        let result = Self::prepare_texture_set(&mut manager, existing, binding, native);
        self.descriptor_manager = Some(manager);
        result
    }

    /// Makes `mesh`, which the caller has uploaded, the mesh of the
    /// renderer. `native` is the handle of a material texture set for the
    /// case that the mesh brings textures. Answers with the writes that fill
    /// the mesh's texture set.
    pub fn set_mesh(&mut self, mesh: Mesh, native: u64) -> (result: Result<
        Vec<DescriptorWrite>,
        AshError,
    >)
        requires
            old(self).wf(),
        ensures
            final(self).wf(),
            old(self)@.sets_mesh(mesh, native, final(self)@, result),
    {
        let key = mesh.name.clone();
        self.mesh_textures.clear();
        let binding = TextureBindingInfo::from_mesh(&mesh, &self.default_texture);
        match self.update_mesh_texture_set(&key, binding, native) {
            Ok((texture_set, writes)) => {
                self.mesh_textures.insert(
                    key.clone(),
                    MeshTextures { texture_set, flags: binding.flags() },
                );
                self.draw_items.clear();
                self.draw_items.push(
                    DrawItem {
                        key: key.clone(),
                        transform: self.transform,
                        material: self.material,
                        texture_flags: binding.flags(),
                        texture_set,
                        bindless_indices: binding.bindless_indices,
                    },
                );
                self.mesh_registry.clear();
                self.mesh_registry.insert(0, key);
                self.material_registry.insert(0, self.material);
                self.mesh = Some(mesh);
                proof {
                    assert(self@.draw_items =~= seq![
                        DrawItemView {
                            key: mesh.name@,
                            transform: old(self)@.transform,
                            material: old(self)@.material,
                            texture_flags: binding.flags,
                            texture_set,
                            bindless_indices: BindlessIndices::unset(),
                        },
                    ]);
                    assert(self@.mesh_registry =~= Map::<u32, String>::empty().insert(
                        0,
                        mesh.name,
                    ));
                }
                Ok(writes)
            },
            Err(error) => Err(error),
        }
    }

    /// Registers `mesh`, which the caller has uploaded, under `handle`.
    /// `native` is the handle of a material texture set for the case that
    /// the mesh needs one. A texture set that cannot be prepared does not
    /// stop the registration; the reason is handed back.
    pub fn register_mesh_handle(&mut self, handle: u32, mesh: &Mesh, native: u64) -> (registration:
        MeshRegistration)
        requires
            old(self).wf(),
        ensures
            final(self).wf(),
            old(self)@.registers_mesh(handle, *mesh, native, final(self)@, registration),
    {
        let key = mesh.name.clone();
        let binding = TextureBindingInfo::from_mesh(mesh, &self.default_texture);
        let registration = match self.update_mesh_texture_set(&key, binding, native) {
            Ok((texture_set, writes)) => {
                self.mesh_textures.insert(
                    key.clone(),
                    MeshTextures { texture_set, flags: binding.flags() },
                );
                MeshRegistration { writes, texture_error: None }
            },
            Err(error) => MeshRegistration { writes: Vec::new(), texture_error: Some(error) },
        };
        self.mesh_registry.insert(handle, key);
        registration
    }

    /// Registers a material under `handle`.
    pub fn register_material_handle(&mut self, handle: u32, material: u64)
        ensures
            final(self)@ == (RendererView {
                material_registry: old(self)@.material_registry.insert(handle, material),
                ..old(self)@
            }),
            old(self).wf() ==> final(self).wf(),
    {
        self.material_registry.insert(handle, material);
    }

    /// Registers the mesh that was made from a mesh descriptor and answers
    /// with the key under which the renderer keeps it, which is its name.
    pub fn register_mesh_descriptor(&mut self, handle: u32, mesh: &Mesh, native: u64) -> (result: (
        String,
        MeshRegistration,
    ))
        requires
            old(self).wf(),
        ensures
            final(self).wf(),
            result.0@ == mesh.name@,
            old(self)@.registers_mesh(handle, *mesh, native, final(self)@, result.1),
    {
        let key = mesh.name.clone();
        let registration = self.register_mesh_handle(handle, mesh, native);
        (key, registration)
    }

    /// Registers the material of a material descriptor under `handle` and
    /// hands the material back.
    pub fn register_material_descriptor(&mut self, handle: u32, material: u64) -> (registered: u64)
        ensures
            registered == material,
            final(self)@ == (RendererView {
                material_registry: old(self)@.material_registry.insert(handle, material),
                ..old(self)@
            }),
            old(self).wf() ==> final(self).wf(),
    {
        self.register_material_handle(handle, material);
        material
    }

    /// Replaces the draw items by those of `commands`, see
    /// [`RendererView::submitted_draws`].
    pub fn submit_render_commands(&mut self, commands: &Vec<RenderCommand>)
        ensures
            final(self)@ == (RendererView {
                draw_items: old(self)@.submitted_draws(commands@),
                ..old(self)@
            }),
            old(self).wf() ==> final(self).wf(),
    {
        let fallback_set = match &self.descriptor_manager {
            Some(manager) => manager.default_texture_array_set(),
            None => 0,
        };
        let mut items = build_draw_items(
            &self.mesh_registry,
            &self.material_registry,
            &self.mesh_textures,
            fallback_set,
            commands,
        );
        if items.len() == 0 {
            match &self.mesh {
                Some(mesh) => {
                    let item = make_draw_item(
                        &self.mesh_textures,
                        fallback_set,
                        &mesh.name,
                        self.transform,
                        self.material,
                    );
                    items.push(item);
                    assert(draw_views(items@) =~= seq![item@]);
                },
                None => {},
            }
        }
        self.draw_items = items;
    }

    /// The draw items of the next frame.
    pub fn draw_items(&self) -> (items: &Vec<DrawItem>)
        ensures
            draw_views(items@) == self@.draw_items,
    {
        &self.draw_items
    }
}

impl Renderer {
    fn check_resources(resources: &RendererResources) -> (refusal: Option<AshError>)
        ensures
            refusal == resources.refusal(),
            refusal is None ==> {
                &&& resources.framebuffers@.len() == resources.image_views@.len()
                &&& resources.frame_syncs@.len() == resources.image_views@.len()
                &&& 5 * resources.image_views@.len() + 5 <= u64::MAX
            },
    {
        let n = resources.image_views.len();
        let expected = if resources.required_extension_count == 0 {
            HEADLESS_FRAME_COUNT
        } else {
            resources.swapchain.image_count
        };
        if n != expected {
            return Some(AshError::ImageCountMismatch { expected, actual: n });
        }
        if resources.framebuffers.len() != n {
            return Some(
                AshError::ImageCountMismatch { expected: n, actual: resources.framebuffers.len() },
            );
        }
        if resources.frame_syncs.len() != n {
            return Some(
                AshError::ImageCountMismatch { expected: n, actual: resources.frame_syncs.len() },
            );
        }
        if resources.command_buffers.len() != n {
            return Some(
                AshError::ImageCountMismatch {
                    expected: n,
                    actual: resources.command_buffers.len(),
                },
            );
        }
        if resources.uniform_buffers.len() != n {
            return Some(
                AshError::ImageCountMismatch {
                    expected: n,
                    actual: resources.uniform_buffers.len(),
                },
            );
        }
        if n as u64 > (u64::MAX - 5) / 5 {
            return Some(AshError::RegistryExhausted);
        }
        if n > 0xffff_ffff {
            return Some(AshError::CountTooLarge(n));
        }
        let workers = resources.worker_count;
        if workers > 0xffff_ffff {
            return Some(AshError::CountTooLarge(workers));
        }
        if resources.descriptors.frame_sets.len() != n || resources.descriptors.material_sets.len()
            != workers || resources.descriptors.shadow_sets.len() != n {
            return Some(AshError::DescriptorHandleCountMismatch);
        }
        if resources.material_buffers.len() > workers {
            return Some(AshError::DescriptorSetIndexOutOfBounds { index: workers });
        }
        match validate_worker_resources(workers, workers, resources.material_buffers.len()) {
            Ok(()) => None,
            Err(error) => Some(error),
        }
    }

    fn register_all(resources: &RendererResources) -> (result: (
        ResourceRegistry,
        Vec<ResourceId>,
        Vec<ResourceId>,
        Vec<FrameSyncIds>,
    ))
        requires
            resources.framebuffers@.len() == resources.image_views@.len(),
            resources.frame_syncs@.len() == resources.image_views@.len(),
            5 * resources.image_views@.len() + 5 <= u64::MAX,
        ensures
            result.0.wf(),
            result.0@ == resources.registry(),
            result.1@ == Seq::new(resources.image_views@.len(), |i: int| ResourceId(i as u64)),
            result.2@ == Seq::new(
                resources.image_views@.len(),
                |i: int| ResourceId((resources.image_views@.len() + 2 + i) as u64),
            ),
            result.3@ == slot_ids(
                2 * (resources.image_views@.len() as int) + 2,
                resources.image_views@.len(),
            ),
    {
        let ghost n = resources.image_views@.len() as int;
        let mut registry = ResourceRegistry::new();
        let ghost empty = registry@;
        assert(empty.records =~= Seq::<crate::registry::RecordView>::empty());
        assert(empty == RegistryView { records: Seq::empty(), next_id: 0 });
        let view_ids = match registry.register_each(ResourceKind::ImageView, &resources.image_views) {
            Ok(ids) => ids,
            Err(_) => vstd::pervasive::unreached(),
        };
        assert(view_ids@ =~= Seq::new(n as nat, |i: int| ResourceId(i as u64)));
        let none: Vec<ResourceId> = Vec::new();
        assert(none@ =~= Seq::<ResourceId>::empty());
        let depth_id = registry.register_live(
            ResourceKind::ImageView,
            resources.depth_buffer,
            &none,
        );
        let pass_id = registry.register_live(ResourceKind::RenderPass, resources.render_pass, &none);
        let framebuffer_ids = Self::register_framebuffers(
            &mut registry,
            &resources.framebuffers,
            pass_id,
            depth_id,
            &view_ids,
        );
        assert(framebuffer_ids@ =~= Seq::new(n as nat, |i: int| ResourceId((n + 2 + i) as u64)));
        let sync_ids = Self::register_frame_syncs(&mut registry, &resources.frame_syncs);
        registry.register_live(ResourceKind::CommandPool, resources.command_pool, &none);
        let layout_id = registry.register_live(
            ResourceKind::PipelineLayout,
            resources.pipeline_layout,
            &none,
        );
        let mut dependencies: Vec<ResourceId> = Vec::new();
        dependencies.push(layout_id);
        dependencies.push(pass_id);
        assert(dependencies@ =~= seq![layout_id, pass_id]);
        registry.register_live(ResourceKind::Pipeline, resources.pipeline, &dependencies);
        (registry, view_ids, framebuffer_ids, sync_ids)
    }

    fn default_texture_bindings(texture: &Texture) -> (bindings: Vec<TextureBinding>)
        ensures
            bindings@ == default_bindings(*texture),
    {
        let mut bindings: Vec<TextureBinding> = Vec::new();
        let mut k: u32 = 0;
        while k < 5
            invariant
                k <= 5,
                bindings@.len() == k,
                forall|j: int|
                    0 <= j < k ==> bindings@[j] == (TextureBinding {
                        binding: j as u32,
                        view: texture.view,
                        sampler: texture.sampler,
                    }),
            decreases 5 - k,
        {
            bindings.push(
                TextureBinding { binding: k, view: texture.view(), sampler: texture.sampler() },
            );
            k += 1;
        }
        assert(bindings@ =~= default_bindings(*texture));
        bindings
    }

    fn build_descriptors(resources: &RendererResources) -> (result: (
        DescriptorManager,
        BindlessManager,
        TextureBindingInfo,
        u64,
        Vec<DescriptorWrite>,
    ))
        requires
            resources.refusal() is None,
        ensures
            result.0.wf(),
            result.1.wf(),
            result.0@ == resources.mesh_set().manager,
            result.1@ == resources.mesh_registration().table,
            result.2 == resources.mesh_registration().info,
            resources.mesh_set().result is Ok,
            result.3 == resources.mesh_set().result->Ok_0.0,
            result.4@ == resources.writes(),
    {
        let frame_count = resources.image_views.len() as u32;
        let workers = resources.worker_count as u32;
        let allocator = DescriptorAllocator::new(
            static_pool_size(frame_count, workers),
            EXTRA_TEXTURE_SETS,
            1,
        );
        let mut manager = match DescriptorManager::new(
            allocator,
            frame_count,
            workers,
            &resources.descriptors,
        ) {
            Ok(manager) => manager,
            Err(_) => vstd::pervasive::unreached(),
        };
        proof {
            assert(Seq::new(manager@.frame_sets.len(), |i: int| manager@.frame_sets[i].handle)
                =~= resources.descriptors.frame_sets@);
            assert(Seq::new(
                manager@.material_sets.len(),
                |i: int| manager@.material_sets[i].handle,
            ) =~= resources.descriptors.material_sets@);
        }
        let mut writes = Self::bind_frame_uniforms(
            &manager,
            &resources.uniform_buffers,
            resources.uniform_buffer_size,
        );
        let mut material_writes = Self::bind_material_uniforms(
            &manager,
            &resources.material_buffers,
            resources.material_buffer_size,
        );
        writes.append(&mut material_writes);
        let bindings = Self::default_texture_bindings(&resources.default_texture);
        let mut texture_writes = match manager.bind_material_textures(
            manager.default_texture_array_set(),
            &bindings,
        ) {
            Ok(texture_writes) => texture_writes,
            Err(_) => vstd::pervasive::unreached(),
        };
        writes.append(&mut texture_writes);
        let (mut bindless, fallback_write) = match BindlessManager::new(
            manager.allocator_mut(),
            MAX_BINDLESS_RESOURCES,
            resources.bindless_layout,
            resources.bindless_set,
            resources.bindless_default_texture,
        ) {
            Ok(made) => made,
            Err(_) => vstd::pervasive::unreached(),
        };
        writes.push(fallback_write);
        assert(manager@ == resources.base_manager());
        assert(bindless@ == resources.fresh_table());
        let mut binding = TextureBindingInfo::from_mesh(&resources.mesh, &resources.default_texture);
        let mut bindless_writes: Vec<DescriptorWrite> = Vec::new();
        proof {
            lemma_present_before_grows(binding.flags, 0, 5);
            law_registration_assigns_consecutive_indices(binding, bindless@, Seq::empty());
            assert(bindless_writes@ =~= Seq::<DescriptorWrite>::empty());
        }
        match binding.register_with_bindless(&mut bindless, &mut bindless_writes) {
            Ok(()) => {},
            Err(_) => vstd::pervasive::unreached(),
        }
        writes.append(&mut bindless_writes);
        let (texture_set, mut set_writes) = match Self::prepare_texture_set(
            &mut manager,
            None,
            binding,
            resources.mesh_texture_set,
        ) {
            Ok(prepared) => prepared,
            Err(_) => vstd::pervasive::unreached(),
        };
        writes.append(&mut set_writes);
        (manager, bindless, binding, texture_set, writes)
    }

    /// Makes a renderer of what the caller created on the device, and
    /// answers with the renderer and the descriptor writes that the caller
    /// applies before the first frame.
    ///
    /// The renderer is headless where the surface provider asks for no
    /// instance extension. Every object is registered with the resource
    /// registry, the descriptor sets are taken from their pools, index 0 of
    /// the bindless table goes to the fallback texture, the textures of
    /// the mesh are registered with the bindless table, and the mesh is the
    /// first draw item. The first frame slot is current, and no resize is
    /// pending. Refused for the reasons of [`RendererResources::refusal`].
    pub fn new(resources: RendererResources) -> (result: Result<
        (Renderer, Vec<DescriptorWrite>),
        AshError,
    >)
        ensures
            match result {
                Ok((renderer, writes)) => {
                    &&& resources.refusal() is None
                    &&& renderer.wf()
                    &&& renderer@ == resources.renderer()
                    &&& writes@ == resources.writes()
                },
                Err(error) => resources.refusal() == Some(error),
            },
    {
        match Self::check_resources(&resources) {
            Some(error) => {
                return Err(error);
            },
            None => {},
        }
        let ghost n = resources.image_views@.len() as int;
        let (registry, view_ids, framebuffer_ids, sync_ids) = Self::register_all(&resources);
        let (manager, bindless, binding, texture_set, writes) = Self::build_descriptors(&resources);
        let key = resources.mesh.name.clone();
        let mut mesh_registry: HashMap<u32, String> = HashMap::new();
        mesh_registry.insert(0, key.clone());
        let mut material_registry: HashMap<u32, u64> = HashMap::new();
        material_registry.insert(0, resources.material);
        let mut mesh_textures = MeshTextureTable::new();
        mesh_textures.insert(key.clone(), MeshTextures { texture_set, flags: binding.flags() });
        let mut draw_items: Vec<DrawItem> = Vec::new();
        draw_items.push(
            DrawItem {
                key,
                transform: resources.transform,
                material: resources.material,
                texture_flags: binding.flags(),
                texture_set,
                bindless_indices: binding.bindless_indices,
            },
        );
        let swapchain = if resources.required_extension_count == 0 {
            None
        } else {
            Some(resources.swapchain)
        };
        let renderer = Renderer {
            resource_registry: registry,
            worker_count: resources.worker_count,
            command_buffers: resources.command_buffers,
            frame_syncs: resources.frame_syncs,
            frame_sync_ids: sync_ids,
            current_frame: 0,
            phase: FramePhase::Idle,
            default_texture: resources.default_texture,
            draw_items,
            swapchain,
            render_pass: Some(resources.render_pass),
            render_pass_id: Some(ResourceId(resources.image_views.len() as u64 + 1)),
            pipeline: Some(resources.pipeline),
            pipeline_layout: Some(resources.pipeline_layout),
            depth_buffer: Some(resources.depth_buffer),
            depth_buffer_id: Some(ResourceId(resources.image_views.len() as u64)),
            uniform_buffers: resources.uniform_buffers,
            uniform_buffer_size: resources.uniform_buffer_size,
            material_buffers: resources.material_buffers,
            descriptor_manager: Some(manager),
            bindless_manager: Some(bindless),
            framebuffers: resources.framebuffers,
            framebuffer_ids,
            swapchain_image_view_ids: view_ids,
            mesh: Some(resources.mesh),
            material: resources.material,
            transform: resources.transform,
            mesh_registry,
            mesh_textures,
            material_registry,
            old_swapchain_handles: Vec::new(),
            swapchain_cleanup_pending: false,
            resize_pending: false,
            pending_extent: Some(resources.swapchain.extent),
            shadow: resources.shadow,
            post_processing: PostProcessing {
                msaa_preset: MsaaPreset::Off,
                tonemapping_enabled: true,
                bloom_enabled: false,
                hdr_framebuffer: None,
                fullscreen_pass: None,
            },
        };
        proof {
            let expected = resources.renderer();
            assert(renderer@.draw_items =~= expected.draw_items);
            assert(renderer@.mesh_registry =~= expected.mesh_registry);
            assert(renderer@.material_registry =~= expected.material_registry);
            assert(renderer@.mesh_textures =~= expected.mesh_textures);
            assert(renderer@.old_swapchains =~= expected.old_swapchains);
        }
        Ok((renderer, writes))
    }
}

/// What is left to destroy when the renderer shuts down.
#[derive(Debug)]
pub struct ShutdownPlan {
    /// The superseded swapchains that still waited for their destruction.
    pub retired_swapchains: Vec<u64>,
    /// The commands of the registry's full cleanup, dependents first.
    pub destroy: Vec<DestroyCommand>,
    /// The per-frame uniform buffers.
    pub uniform_buffers: Vec<u64>,
    /// The per-worker material buffers.
    pub material_buffers: Vec<u64>,
}

impl Renderer {
    /// Shuts the renderer down, after the caller waited for the device to
    /// become idle. The superseded swapchains are handed over first, then
    /// every registered object, dependents before what they depend on, then
    /// the uniform and material buffers.
    pub fn shutdown(&mut self) -> (plan: ShutdownPlan)
        requires
            old(self).wf(),
        ensures
            final(self).wf(),
            final(self)@ == old(self)@.shut_down(),
            plan.retired_swapchains@ == old(self)@.retired(),
            plan.destroy@ == old(self)@.registry.destroy_plan(),
            plan.uniform_buffers@ == old(self)@.uniform_buffers,
            plan.material_buffers@ == old(self)@.material_buffers,
    {
        let retired_swapchains = self.flush_old_swapchains();
        let destroy = self.resource_registry.cleanup();
        self.descriptor_manager = None;
        let mut uniform_buffers: Vec<u64> = Vec::new();
        std::mem::swap(&mut uniform_buffers, &mut self.uniform_buffers);
        let mut material_buffers: Vec<u64> = Vec::new();
        std::mem::swap(&mut material_buffers, &mut self.material_buffers);
        self.draw_items.clear();
        self.mesh = None;
        self.depth_buffer = None;
        self.pipeline = None;
        self.render_pass = None;
        self.swapchain = None;
        self.phase = FramePhase::Idle;
        proof {
            assert(self@.draw_items =~= Seq::<DrawItemView>::empty());
            assert(self@.old_swapchains =~= Seq::<u64>::empty());
            assert(self@.uniform_buffers =~= Seq::<u64>::empty());
            assert(self@.material_buffers =~= Seq::<u64>::empty());
        }
        ShutdownPlan { retired_swapchains, destroy, uniform_buffers, material_buffers }
    }

    /// The state of multisampling and post-processing.
    pub fn post_processing(&self) -> (state: PostProcessing)
        ensures
            state == self@.post_processing,
    {
        self.post_processing
    }

    /// Sets the multisampling preset. The multisampled targets are not
    /// rebuilt by this.
    pub fn set_msaa_preset(&mut self, preset: MsaaPreset)
        ensures
            final(self)@ == old(self)@.with_post_processing(
                PostProcessing { msaa_preset: preset, ..old(self)@.post_processing },
            ),
            old(self).wf() ==> final(self).wf(),
    {
        self.post_processing.msaa_preset = preset;
    }

    /// The multisampling preset.
    pub fn msaa_preset(&self) -> (preset: MsaaPreset)
        ensures
            preset == self@.post_processing.msaa_preset,
    {
        self.post_processing.msaa_preset
    }

    /// Switches tonemapping on or off.
    pub fn set_tonemapping_enabled(&mut self, enabled: bool)
        ensures
            final(self)@ == old(self)@.with_post_processing(
                PostProcessing { tonemapping_enabled: enabled, ..old(self)@.post_processing },
            ),
            old(self).wf() ==> final(self).wf(),
    {
        self.post_processing.tonemapping_enabled = enabled;
    }

    /// Whether tonemapping is on.
    pub fn tonemapping_enabled(&self) -> (enabled: bool)
        ensures
            enabled == self@.post_processing.tonemapping_enabled,
    {
        self.post_processing.tonemapping_enabled
    }

    /// Switches bloom on or off.
    pub fn set_bloom_enabled(&mut self, enabled: bool)
        ensures
            final(self)@ == old(self)@.with_post_processing(
                PostProcessing { bloom_enabled: enabled, ..old(self)@.post_processing },
            ),
            old(self).wf() ==> final(self).wf(),
    {
        self.post_processing.bloom_enabled = enabled;
    }

    /// Whether bloom is on.
    pub fn bloom_enabled(&self) -> (enabled: bool)
        ensures
            enabled == self@.post_processing.bloom_enabled,
    {
        self.post_processing.bloom_enabled
    }

    /// The swapchain that post-processing targets are made for. A headless
    /// renderer has none, and no post-processing.
    pub fn post_processing_target(&self) -> (result: Result<SwapchainInfo, AshError>)
        ensures
            result == match self@.swapchain {
                Some(swapchain) => Ok::<SwapchainInfo, AshError>(swapchain),
                None => Err::<SwapchainInfo, AshError>(AshError::SwapchainUnavailable),
            },
    {
        match self.swapchain {
            Some(swapchain) => Ok(swapchain),
            None => Err(AshError::SwapchainUnavailable),
        }
    }

    /// Takes note of the HDR framebuffer that the caller created with the
    /// extent of the swapchain. Refused, with nothing changed, where the
    /// renderer has no swapchain.
    pub fn initialize_hdr(&mut self, framebuffer: u64) -> (result: Result<(), AshError>)
        ensures
            old(self).wf() ==> final(self).wf(),
            match result {
                Ok(()) => old(self)@.swapchain is Some && final(self)@ == old(
                    self,
                )@.with_post_processing(
                    PostProcessing {
                        hdr_framebuffer: Some(framebuffer),
                        ..old(self)@.post_processing
                    },
                ),
                Err(error) => old(self)@.swapchain is None && final(self)@ == old(self)@ && error
                    == AshError::SwapchainUnavailable,
            },
    {
        if self.swapchain.is_none() {
            return Err(AshError::SwapchainUnavailable);
        }
        self.post_processing.hdr_framebuffer = Some(framebuffer);
        Ok(())
    }

    /// Takes note of the fullscreen pass that the caller created for the
    /// format of the swapchain. Refused, with nothing changed, where the
    /// renderer has no swapchain.
    pub fn initialize_fullscreen_pass(&mut self, pass: u64) -> (result: Result<(), AshError>)
        ensures
            old(self).wf() ==> final(self).wf(),
            match result {
                Ok(()) => old(self)@.swapchain is Some && final(self)@ == old(
                    self,
                )@.with_post_processing(
                    PostProcessing { fullscreen_pass: Some(pass), ..old(self)@.post_processing },
                ),
                Err(error) => old(self)@.swapchain is None && final(self)@ == old(self)@ && error
                    == AshError::SwapchainUnavailable,
            },
    {
        if self.swapchain.is_none() {
            return Err(AshError::SwapchainUnavailable);
        }
        self.post_processing.fullscreen_pass = Some(pass);
        Ok(())
    }

    /// Takes note of the HDR framebuffer and the fullscreen pass, and
    /// switches tonemapping on. Refused, with nothing changed, where the
    /// renderer has no swapchain.
    pub fn enable_post_processing(&mut self, framebuffer: u64, pass: u64) -> (result: Result<
        (),
        AshError,
    >)
        ensures
            old(self).wf() ==> final(self).wf(),
            match result {
                Ok(()) => old(self)@.swapchain is Some && final(self)@ == old(
                    self,
                )@.with_post_processing(
                    PostProcessing {
                        hdr_framebuffer: Some(framebuffer),
                        fullscreen_pass: Some(pass),
                        tonemapping_enabled: true,
                        ..old(self)@.post_processing
                    },
                ),
                Err(error) => old(self)@.swapchain is None && final(self)@ == old(self)@ && error
                    == AshError::SwapchainUnavailable,
            },
    {
        match self.initialize_hdr(framebuffer) {
            Ok(()) => {},
            Err(error) => {
                return Err(error);
            },
        }
        match self.initialize_fullscreen_pass(pass) {
            Ok(()) => {},
            Err(error) => {
                return Err(error);
            },
        }
        self.post_processing.tonemapping_enabled = true;
        Ok(())
    }

    /// Whether the HDR framebuffer and the fullscreen pass are both
    /// initialized.
    pub fn post_processing_ready(&self) -> (ready: bool)
        ensures
            ready == (self@.post_processing.hdr_framebuffer is Some
                && self@.post_processing.fullscreen_pass is Some),
    {
        self.post_processing.hdr_framebuffer.is_some()
            && self.post_processing.fullscreen_pass.is_some()
    }

    /// The transform that places the renderer's own mesh.
    pub fn transform(&self) -> (transform: u64)
        ensures
            transform == self@.transform,
    {
        self.transform
    }

    /// The transform that places the renderer's own mesh, to change it.
    pub fn transform_mut(&mut self) -> (transform: &mut u64)
        ensures
            *transform == old(self)@.transform,
            final(self)@ == (RendererView { transform: *final(transform), ..old(self)@ }),
    {
        &mut self.transform
    }

    /// The material of the renderer's own mesh.
    pub fn material(&self) -> (material: u64)
        ensures
            material == self@.material,
    {
        self.material
    }

    /// The material of the renderer's own mesh, to change it.
    pub fn material_mut(&mut self) -> (material: &mut u64)
        ensures
            *material == old(self)@.material,
            final(self)@ == (RendererView { material: *final(material), ..old(self)@ }),
    {
        &mut self.material
    }

    /// The renderer's own mesh.
    pub fn mesh(&self) -> (mesh: Option<&Mesh>)
        ensures
            mesh == match self@.mesh {
                Some(own) => Some(&own),
                None => None,
            },
    {
        self.mesh.as_ref()
    }

    /// The renderer's own mesh, to change it. The tables keep the mesh
    /// under the name it had when it was set.
    pub fn mesh_mut(&mut self) -> (mesh: Option<&mut Mesh>)
        ensures
            match mesh {
                Some(own) => old(self)@.mesh == Some(*own) && final(self)@ == (RendererView {
                    mesh: Some(*final(own)),
                    ..old(self)@
                }),
                None => old(self)@.mesh is None && final(self)@ == old(self)@,
            },
    {
        self.mesh.as_mut()
    }

    /// The bindless table.
    pub fn bindless_manager(&self) -> (table: Option<&BindlessManager>)
        ensures
            match table {
                Some(found) => self@.bindless == Some(found@),
                None => self@.bindless is None,
            },
    {
        self.bindless_manager.as_ref()
    }

    /// The descriptor manager.
    pub fn descriptor_manager(&self) -> (manager: Option<&DescriptorManager>)
        ensures
            match manager {
                Some(found) => self@.descriptors == Some(found@),
                None => self@.descriptors is None,
            },
    {
        self.descriptor_manager.as_ref()
    }
}

} // verus!
