//! What each step of the rebuild after a resize does to the renderer.

use vstd::prelude::*;
use crate::descriptor_allocator::AllocatorView;
use crate::descriptor_manager::{static_sets, take_static, uniform_buffer_write, ManagerView};
use crate::descriptor_set::{DescriptorWrite, PoolClass};
use crate::error::AshError;
use crate::frame::{FrameAction, FramePhase, FrameSync, FrameSyncIds, SwapchainInfo};
use crate::registry::{RegistryView, ResourceId, ResourceKind};
use crate::renderer_view::RendererView;

verus! {

/// The identifier as a list: one entry, or none.
pub open spec fn option_ids(id: Option<ResourceId>) -> Seq<ResourceId> {
    match id {
        Some(id) => seq![id],
        None => Seq::empty(),
    }
}

/// The identifiers of the objects of the frame slots, slot by slot: the
/// two semaphores, then the fence.
pub open spec fn sync_ids(slots: Seq<FrameSyncIds>) -> Seq<ResourceId>
    decreases slots.len(),
{
    if slots.len() == 0 {
        Seq::empty()
    } else {
        sync_ids(slots.drop_last()) + seq![
            slots.last().image_available,
            slots.last().render_finished,
            slots.last().in_flight,
        ]
    }
}

/// The identifiers that `n` frame slots get when they are registered from
/// the identifier `base` on.
pub open spec fn slot_ids(base: int, n: nat) -> Seq<FrameSyncIds> {
    Seq::new(
        n,
        |i: int|
            FrameSyncIds {
                image_available: ResourceId((base + 3 * i) as u64),
                render_finished: ResourceId((base + 3 * i + 1) as u64),
                in_flight: ResourceId((base + 3 * i + 2) as u64),
            },
    )
}

/// The registry after the objects of `syncs` were registered, slot by
/// slot: the two semaphores, then the fence.
pub open spec fn register_slots(registry: RegistryView, syncs: Seq<FrameSync>) -> RegistryView
    decreases syncs.len(),
{
    if syncs.len() == 0 {
        registry
    } else {
        register_slots(registry, syncs.drop_last()).register(
            ResourceKind::Semaphore,
            syncs.last().image_available,
            Seq::empty(),
        ).register(ResourceKind::Semaphore, syncs.last().render_finished, Seq::empty()).register(
            ResourceKind::Fence,
            syncs.last().in_flight,
            Seq::empty(),
        )
    }
}

/// The registry after `framebuffers` were registered, each depending on
/// the render pass, on the depth buffer and on the image view of its
/// place.
pub open spec fn register_framebuffers(
    registry: RegistryView,
    framebuffers: Seq<u64>,
    render_pass: ResourceId,
    depth_buffer: ResourceId,
    image_views: Seq<ResourceId>,
) -> RegistryView
    decreases framebuffers.len(),
{
    if framebuffers.len() == 0 {
        registry
    } else {
        register_framebuffers(
            registry,
            framebuffers.drop_last(),
            render_pass,
            depth_buffer,
            image_views,
        ).register(
            ResourceKind::Framebuffer,
            framebuffers.last(),
            seq![render_pass, depth_buffer, image_views[framebuffers.len() - 1]],
        )
    }
}

/// The writes that bind the uniform buffers to the frame sets, slot by
/// slot, as far as both reach.
pub open spec fn frame_uniform_writes(sets: Seq<u64>, buffers: Seq<u64>, size: u64) -> Seq<
    DescriptorWrite,
> {
    Seq::new(
        if sets.len() <= buffers.len() {
            sets.len()
        } else {
            buffers.len()
        },
        |i: int| uniform_buffer_write(sets[i], buffers[i], size),
    )
}

impl RendererView {
    /// The rebuild is given up with `refusal`; the resize stays pending.
    pub open spec fn gives_up(
        self,
        after: RendererView,
        result: Result<FrameAction, AshError>,
        refusal: AshError,
    ) -> bool {
        &&& after == self.idle()
        &&& result matches Err(error)
        &&& error == refusal
    }

    /// The identifiers of everything that hangs on the old swapchain, in
    /// the order in which it is torn down: dependents first.
    pub open spec fn teardown_ids(self) -> Seq<ResourceId> {
        self.framebuffer_ids + option_ids(self.render_pass_id) + self.image_view_ids + option_ids(
            self.depth_buffer_id,
        )
    }

    /// The renderer after `swapchain` took the place of its swapchain: the
    /// superseded swapchain `old_swapchain` waits on the list for its
    /// destruction, unless it is the null handle.
    pub open spec fn replaced(self, swapchain: SwapchainInfo, old_swapchain: u64) -> RendererView {
        RendererView {
            swapchain: Some(swapchain),
            old_swapchains: if old_swapchain == 0 {
                self.old_swapchains
            } else {
                self.old_swapchains.push(old_swapchain)
            },
            swapchain_cleanup_pending: self.swapchain_cleanup_pending || old_swapchain != 0,
            ..self
        }
    }

    /// What `SwapchainRecreated` does: the new swapchain takes the place
    /// of the old one, which is put on the list of superseded swapchains,
    /// before anything can be refused; then the framebuffers, the render
    /// pass, the image views and the depth buffer of the old swapchain are
    /// cleaned up, in this order, and the image views of the new swapchain
    /// are registered.
    pub open spec fn swapchain_recreated(
        self,
        swapchain: SwapchainInfo,
        old_swapchain: u64,
        image_views: Seq<u64>,
        after: RendererView,
        result: Result<FrameAction, AshError>,
    ) -> bool {
        if !(self.phase is AwaitingSwapchain) {
            self.refuses(after, result)
        } else if image_views.len() != swapchain.image_count {
            self.replaced(swapchain, old_swapchain).gives_up(
                after,
                result,
                AshError::ImageCountMismatch {
                    expected: swapchain.image_count,
                    actual: image_views.len() as usize,
                },
            )
        } else if self.registry.next_id + image_views.len() > u64::MAX {
            self.replaced(swapchain, old_swapchain).gives_up(
                after,
                result,
                AshError::RegistryExhausted,
            )
        } else {
            let cleaned = self.registry.remove_each(self.teardown_ids());
            &&& after == RendererView {
                registry: cleaned.register_many(ResourceKind::ImageView, image_views),
                framebuffers: Seq::empty(),
                framebuffer_ids: Seq::empty(),
                render_pass: None,
                render_pass_id: None,
                image_view_ids: cleaned.sequential_ids(image_views.len()),
                depth_buffer: None,
                depth_buffer_id: None,
                phase: FramePhase::AwaitingDepthBuffer,
                ..self.replaced(swapchain, old_swapchain)
            }
            &&& result matches Ok(FrameAction::CreateDepthBuffer { extent, destroy, refused })
            &&& extent == swapchain.extent
            &&& destroy@ == self.registry.commands_of_each(self.teardown_ids())
            &&& refused@ == self.registry.refusals_of_each(self.teardown_ids())
        }
    }

    /// What `DepthBufferCreated` does: the depth buffer is registered.
    pub open spec fn depth_buffer_created(
        self,
        view: u64,
        after: RendererView,
        result: Result<FrameAction, AshError>,
    ) -> bool {
        if !(self.phase is AwaitingDepthBuffer) {
            self.refuses(after, result)
        } else if self.registry.next_id == u64::MAX {
            self.gives_up(after, result, AshError::RegistryExhausted)
        } else {
            &&& after == RendererView {
                registry: self.registry.register(ResourceKind::ImageView, view, Seq::empty()),
                depth_buffer: Some(view),
                depth_buffer_id: Some(ResourceId(self.registry.next_id)),
                phase: FramePhase::AwaitingRenderTargets,
                ..self
            }
            &&& result matches Ok(
                FrameAction::CreateRenderTargets { extent, format, image_count, depth_view },
            )
            &&& extent == self.swapchain.unwrap().extent
            &&& format == self.swapchain.unwrap().format
            &&& image_count == self.swapchain.unwrap().image_count
            &&& depth_view == view
        }
    }

    /// What `RenderTargetsCreated` does: the render pass is registered,
    /// then one framebuffer per image, each depending on the render pass,
    /// the depth buffer and its image view; then the synchronization
    /// objects of the old frame slots are cleaned up, all of them together.
    pub open spec fn render_targets_created(
        self,
        render_pass: u64,
        framebuffers: Seq<u64>,
        after: RendererView,
        result: Result<FrameAction, AshError>,
    ) -> bool {
        if !(self.phase is AwaitingRenderTargets) {
            self.refuses(after, result)
        } else if self.depth_buffer_id is None {
            self.gives_up(after, result, AshError::DepthBufferUnavailable)
        } else if framebuffers.len() != self.image_view_ids.len() {
            self.gives_up(
                after,
                result,
                AshError::ImageCountMismatch {
                    expected: self.image_view_ids.len() as usize,
                    actual: framebuffers.len() as usize,
                },
            )
        } else if self.registry.next_id + 1 + framebuffers.len() > u64::MAX {
            self.gives_up(after, result, AshError::RegistryExhausted)
        } else {
            let pass_id = ResourceId(self.registry.next_id);
            let built = register_framebuffers(
                self.registry.register(ResourceKind::RenderPass, render_pass, Seq::empty()),
                framebuffers,
                pass_id,
                self.depth_buffer_id.unwrap(),
                self.image_view_ids,
            );
            &&& after == RendererView {
                registry: built.remove_each(sync_ids(self.frame_sync_ids)),
                render_pass: Some(render_pass),
                render_pass_id: Some(pass_id),
                framebuffers,
                framebuffer_ids: Seq::new(
                    framebuffers.len(),
                    |i: int| ResourceId((self.registry.next_id + 1 + i) as u64),
                ),
                frame_syncs: Seq::empty(),
                frame_sync_ids: Seq::empty(),
                phase: FramePhase::AwaitingFrameSyncs,
                ..self
            }
            &&& result matches Ok(FrameAction::CreateFrameSyncs { count, destroy, refused })
            &&& count == framebuffers.len()
            &&& destroy@ == built.commands_of_each(sync_ids(self.frame_sync_ids))
            &&& refused@ == built.refusals_of_each(sync_ids(self.frame_sync_ids))
        }
    }

    /// What `FrameSyncsCreated` does: the objects of all frame slots are
    /// registered together, and the first slot becomes current.
    pub open spec fn frame_syncs_created(
        self,
        syncs: Seq<FrameSync>,
        after: RendererView,
        result: Result<FrameAction, AshError>,
    ) -> bool {
        if !(self.phase is AwaitingFrameSyncs) {
            self.refuses(after, result)
        } else if syncs.len() != self.framebuffers.len() {
            self.gives_up(
                after,
                result,
                AshError::ImageCountMismatch {
                    expected: self.framebuffers.len() as usize,
                    actual: syncs.len() as usize,
                },
            )
        } else if self.registry.next_id + 3 * syncs.len() > u64::MAX {
            self.gives_up(after, result, AshError::RegistryExhausted)
        } else {
            &&& after == RendererView {
                registry: register_slots(self.registry, syncs),
                frame_syncs: syncs,
                frame_sync_ids: slot_ids(self.registry.next_id as int, syncs.len()),
                current_frame: 0,
                phase: FramePhase::AwaitingCommandBuffers,
                ..self
            }
            &&& result matches Ok(FrameAction::AllocateCommandBuffers { count })
            &&& count == self.framebuffers.len()
        }
    }

    /// What `CommandBuffersAllocated` does: the new command buffers take
    /// the place of the old ones, and the old uniform buffers are handed
    /// over for release.
    pub open spec fn command_buffers_allocated(
        self,
        buffers: Seq<u64>,
        after: RendererView,
        result: Result<FrameAction, AshError>,
    ) -> bool {
        if !(self.phase is AwaitingCommandBuffers) {
            self.refuses(after, result)
        } else if buffers.len() != self.framebuffers.len() {
            self.gives_up(
                after,
                result,
                AshError::ImageCountMismatch {
                    expected: self.framebuffers.len() as usize,
                    actual: buffers.len() as usize,
                },
            )
        } else {
            &&& after == RendererView {
                command_buffers: buffers,
                current_frame: 0,
                uniform_buffers: Seq::empty(),
                phase: FramePhase::AwaitingUniformBuffers,
                ..self
            }
            &&& result matches Ok(FrameAction::CreateUniformBuffers { count, release })
            &&& count == self.framebuffers.len()
            &&& release@ == self.uniform_buffers
        }
    }

    /// The renderer after a rebuild was completed: no resize is pending,
    /// and the extent of the swapchain is the extent on record.
    pub open spec fn settled(self) -> RendererView {
        RendererView {
            resize_pending: false,
            pending_extent: Some(self.swapchain.unwrap().extent),
            phase: FramePhase::Idle,
            ..self
        }
    }

    /// What `UniformBuffersCreated` does: the new uniform buffers take
    /// their place. A renderer without descriptor manager has completed
    /// its rebuild with that; the others go on to the frame sets.
    pub open spec fn uniform_buffers_created(
        self,
        buffers: Seq<u64>,
        after: RendererView,
        result: Result<FrameAction, AshError>,
    ) -> bool {
        if !(self.phase is AwaitingUniformBuffers) {
            self.refuses(after, result)
        } else if buffers.len() != self.framebuffers.len() {
            self.gives_up(
                after,
                result,
                AshError::ImageCountMismatch {
                    expected: self.framebuffers.len() as usize,
                    actual: buffers.len() as usize,
                },
            )
        } else {
            match self.descriptors {
                None => {
                    &&& after == RendererView { uniform_buffers: buffers, ..self }.settled()
                    &&& result matches Ok(FrameAction::Rebuilt { writes })
                    &&& writes@ == Seq::<DescriptorWrite>::empty()
                },
                Some(manager) => if self.frame_syncs.len() > u32::MAX {
                    self.gives_up(
                        after,
                        result,
                        AshError::CountTooLarge(self.frame_syncs.len() as usize),
                    )
                } else {
                    &&& after == RendererView {
                        uniform_buffers: buffers,
                        phase: FramePhase::AwaitingFrameSets,
                        ..self
                    }
                    &&& result matches Ok(FrameAction::AllocateFrameSets { count, layout })
                    &&& count == self.frame_syncs.len()
                    &&& layout == manager.frame_layout.handle
                },
            }
        }
    }

    /// What `FrameSetsAllocated` does: the frame sets are replaced by new
    /// ones from the static pool, one per frame slot, the uniform buffers
    /// are bound to them, and the rebuild is complete.
    pub open spec fn frame_sets_allocated(
        self,
        sets: Seq<u64>,
        after: RendererView,
        result: Result<FrameAction, AshError>,
    ) -> bool {
        if !(self.phase is AwaitingFrameSets) {
            self.refuses(after, result)
        } else {
            match self.descriptors {
                None => self.gives_up(after, result, AshError::DescriptorManagerUnavailable),
                Some(manager) => if self.frame_syncs.len() > u32::MAX {
                    self.gives_up(
                        after,
                        result,
                        AshError::CountTooLarge(self.frame_syncs.len() as usize),
                    )
                } else if sets.len() != self.frame_syncs.len() {
                    self.gives_up(after, result, AshError::DescriptorHandleCountMismatch)
                } else if manager.allocator.static_used + sets.len()
                    > manager.allocator.static_capacity {
                    &&& after == RendererView {
                        descriptors: Some(
                            ManagerView {
                                allocator: AllocatorView {
                                    static_used: manager.allocator.static_capacity,
                                    ..manager.allocator
                                },
                                ..manager
                            },
                        ),
                        phase: FramePhase::Idle,
                        ..self
                    }
                    &&& result matches Err(error)
                    &&& error == AshError::DescriptorPoolExhausted(PoolClass::Static)
                } else {
                    &&& after == RendererView {
                        descriptors: Some(
                            ManagerView {
                                allocator: take_static(manager.allocator, sets.len() as int),
                                frame_sets: static_sets(sets, manager.frame_layout),
                                ..manager
                            },
                        ),
                        ..self
                    }.settled()
                    &&& result matches Ok(FrameAction::Rebuilt { writes })
                    &&& writes@ == frame_uniform_writes(
                        sets,
                        self.uniform_buffers,
                        self.uniform_buffer_size,
                    )
                },
            }
        }
    }
}

} // verus!
