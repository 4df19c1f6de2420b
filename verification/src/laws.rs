//! Laws of the frame protocol and of the resize cycle.

use vstd::prelude::*;
use crate::error::AshError;
use crate::frame::{
    surface_status, FrameAction, FrameEvent, FrameSync, SurfaceStatus, SwapchainInfo,
};
use crate::renderer_view::RendererView;
use crate::surface::Extent2D;

verus! {

impl RendererView {
    /// While a resize is pending for an extent without area, no event
    /// changes anything: the renderer stays as it is, the resize stays
    /// pending, and neither a rebuild nor a frame is started.
    pub proof fn law_zero_area_resize_waits(
        self,
        event: FrameEvent,
        after: RendererView,
        result: Result<FrameAction, AshError>,
    )
        requires
            self.phase is Idle,
            self.resize_deferred(),
            self.steps(event, after, result),
        ensures
            after == self,
            after.resize_pending,
            !(result matches Ok(FrameAction::Rebuild { .. })),
            !(result matches Ok(FrameAction::WaitFence { .. })),
            event is Begin ==> result matches Ok(FrameAction::Skip { .. }),
    {
    }

    /// A resize request for an extent with area ends the wait: the next
    /// `Begin` of a renderer with a swapchain starts the rebuild.
    pub proof fn law_resize_with_area_rebuilds(
        self,
        extent: Extent2D,
        after: RendererView,
        result: Result<FrameAction, AshError>,
    )
        requires
            self.phase is Idle,
            self.swapchain is Some,
            !extent.zero_area(),
            self.requested(extent).begins(after, result),
        ensures
            result matches Ok(FrameAction::Rebuild { .. }),
            after.phase is AwaitingSwapchain,
            after.resize_pending,
    {
    }

    /// A full resize cycle, from the recreated swapchain to the last step
    /// of the rebuild, leaves one frame slot per image of the new
    /// swapchain, makes the first slot current, and settles the resize.
    /// `finished` is the renderer after the last step: after the uniform
    /// buffers where the renderer has no descriptor manager, after the
    /// frame sets otherwise.
    pub proof fn law_resize_cycle_resets_frame_slots(
        self,
        swapchain: SwapchainInfo,
        old_swapchain: u64,
        image_views: Seq<u64>,
        depth_view: u64,
        render_pass: u64,
        framebuffers: Seq<u64>,
        syncs: Seq<FrameSync>,
        command_buffers: Seq<u64>,
        uniform_buffers: Seq<u64>,
        frame_sets: Seq<u64>,
        steps: Seq<RendererView>,
        results: Seq<Result<FrameAction, AshError>>,
        finished: RendererView,
    )
        requires
            steps.len() == 7,
            results.len() == 7,
            forall|i: int| 0 <= i < 6 ==> (#[trigger] results[i]) is Ok,
            self.swapchain_recreated(swapchain, old_swapchain, image_views, steps[0], results[0]),
            steps[0].depth_buffer_created(depth_view, steps[1], results[1]),
            steps[1].render_targets_created(render_pass, framebuffers, steps[2], results[2]),
            steps[2].frame_syncs_created(syncs, steps[3], results[3]),
            steps[3].command_buffers_allocated(command_buffers, steps[4], results[4]),
            steps[4].uniform_buffers_created(uniform_buffers, steps[5], results[5]),
            if steps[4].descriptors is None {
                finished == steps[5]
            } else {
                &&& steps[5].frame_sets_allocated(frame_sets, steps[6], results[6])
                &&& results[6] is Ok
                &&& finished == steps[6]
            },
        ensures
            finished.swapchain == Some(swapchain),
            finished.frame_syncs.len() == swapchain.image_count,
            finished.frame_sync_ids.len() == swapchain.image_count,
            finished.command_buffers.len() == swapchain.image_count,
            finished.uniform_buffers.len() == swapchain.image_count,
            finished.framebuffers.len() == swapchain.image_count,
            finished.current_frame == 0,
            !finished.resize_pending,
            finished.pending_extent == Some(swapchain.extent),
            finished.phase is Idle,
    {
        assert(results[0] is Ok);
        assert(results[1] is Ok);
        assert(results[2] is Ok);
        assert(results[3] is Ok);
        assert(results[4] is Ok);
        assert(results[5] is Ok);
    }

    /// A frame of a headless renderer that nothing disturbs runs from
    /// `Begin` over `FenceSignaled` to `Submitted` and makes the next frame
    /// slot current: the current slot plus one, and slot 0 after the last.
    pub proof fn law_headless_frame_advances(
        self,
        fenced: RendererView,
        recorded: RendererView,
        finished: RendererView,
        first: Result<FrameAction, AshError>,
        second: Result<FrameAction, AshError>,
        third: Result<FrameAction, AshError>,
    )
        requires
            self.command_buffers.len() <= usize::MAX,
            self.swapchain is None,
            self.begins(fenced, first),
            first matches Ok(FrameAction::WaitFence { .. }),
            fenced.fence_signaled(recorded, second),
            second is Ok,
            recorded.submitted(finished, third),
        ensures
            third matches Ok(FrameAction::Done { .. }),
            finished.phase is Idle,
            self.current_frame < self.command_buffers.len(),
            finished.current_frame == if self.current_frame + 1 == self.command_buffers.len() {
                0
            } else {
                self.current_frame + 1
            },
            finished.command_buffers == self.command_buffers,
    {
        assert(self.phase is Idle);
        assert(!self.resize_deferred());
        assert(!self.resize_pending);
        assert(self.start_refusal() is None);
        assert(fenced.phase is AwaitingFence);
        assert(recorded.phase is Recording);
        lemma_next_slot(self.current_frame as int, self.command_buffers.len() as int);
    }

    /// A frame of a renderer with a swapchain that nothing disturbs runs
    /// from `Begin` over `FenceSignaled`, a successful acquire and
    /// `Submitted` to a successful present, and makes the next frame slot
    /// current.
    pub proof fn law_presented_frame_advances(
        self,
        image_index: u32,
        states: Seq<RendererView>,
        results: Seq<Result<FrameAction, AshError>>,
    )
        requires
            states.len() == 5,
            results.len() == 5,
            self.command_buffers.len() <= usize::MAX,
            self.swapchain is Some,
            self.begins(states[0], results[0]),
            results[0] matches Ok(FrameAction::WaitFence { .. }),
            states[0].fence_signaled(states[1], results[1]),
            states[1].image_acquired(0, image_index, states[2], results[2]),
            results[2] is Ok,
            states[2].submitted(states[3], results[3]),
            states[3].presented(0, states[4], results[4]),
        ensures
            results[1] matches Ok(FrameAction::AcquireImage { .. }),
            results[2] matches Ok(FrameAction::Record(_)),
            results[3] matches Ok(FrameAction::Present { .. }),
            results[4] matches Ok(FrameAction::Done { .. }),
            states[4].phase is Idle,
            self.current_frame < self.command_buffers.len(),
            states[4].current_frame == if self.current_frame + 1 == self.command_buffers.len() {
                0
            } else {
                self.current_frame + 1
            },
    {
        assert(self.phase is Idle);
        assert(!self.resize_deferred());
        assert(!self.resize_pending);
        assert(self.start_refusal() is None);
        assert(states[0].phase is AwaitingFence);
        assert(states[1].phase is AwaitingImage);
        assert(surface_status(0) == SurfaceStatus::Ready);
        assert(states[2].phase is Recording);
        assert(states[3].phase is Presenting);
        lemma_next_slot(self.current_frame as int, self.command_buffers.len() as int);
    }

    /// An acquire or a present that finds the surface out of date or
    /// suboptimal is no error: the frame is abandoned, the frame slot stays
    /// current, and a resize is pending afterwards.
    pub proof fn law_invalid_surface_requests_resize(
        self,
        code: i32,
        image_index: u32,
        after: RendererView,
        result: Result<FrameAction, AshError>,
    )
        requires
            code == 1_000_001_003 || code == -1_000_001_004,
            (self.phase is AwaitingImage && self.image_acquired(code, image_index, after, result))
                || (self.phase is Presenting && self.presented(code, after, result)),
        ensures
            result matches Ok(FrameAction::Skip { .. }),
            after.resize_pending,
            after.phase is Idle,
            after.current_frame == self.current_frame,
    {
    }
}

/// The slot after `slot` among `count` slots: the next one, and the first
/// after the last.
pub proof fn lemma_next_slot(slot: int, count: int)
    requires
        0 <= slot < count,
    ensures
        (slot + 1) % count == if slot + 1 == count {
            0
        } else {
            slot + 1
        },
{
    if slot + 1 == count {
        vstd::arithmetic::div_mod::lemma_mod_self_0(count);
    } else {
        vstd::arithmetic::div_mod::lemma_small_mod((slot + 1) as nat, count as nat);
    }
}

} // verus!
