//! What holds of a renderer in every stage it can reach.

use vstd::prelude::*;
use crate::command::COMMANDS_PER_FRAME;
use crate::state::RendererState;
use crate::state::Reply;
use crate::state::Stage;
use crate::state::TRIANGLE_VERTEX_COUNT;
use crate::swap_chain::MAX_SWAP_CHAIN_BUFFERS;
use crate::upload::view_of;
use crate::window::Window;

verus! {

impl RendererState {
    /// Whether every buffer of the swap chain has its render-target view:
    /// so it is from the creation of the command allocator on.
    pub open spec fn views_created(self) -> bool {
        match self.stage {
            Stage::Created | Stage::EnablingValidation | Stage::CreatingFactory
            | Stage::EnumeratingAdapter | Stage::CastingAdapter | Stage::ReleasingEnumeration
            | Stage::ProbingAdapter | Stage::ReleasingProbe | Stage::ReleasingAdapter
            | Stage::CreatingDevice | Stage::CreatingCommandQueue | Stage::CreatingSwapChain
            | Stage::UpgradingSwapChain | Stage::ReadingBackBuffer | Stage::CreatingDescriptorHeap
            | Stage::ReadingDescriptorSize | Stage::ReadingHeapStart | Stage::CreatingRenderTarget
            | Stage::Failed => false,
            _ => true,
        }
    }

    /// Whether the vertices are in their buffer and the view of the buffer is
    /// made: so it is from the creation of the fence on.
    pub open spec fn vertices_uploaded(self) -> bool {
        self.stage == Stage::CreatingFence || self.fence_created()
    }

    /// Whether the fence exists: so it is from the creation of its event on.
    pub open spec fn fence_created(self) -> bool {
        match self.stage {
            Stage::CreatingFenceEvent | Stage::Signaling | Stage::ReadingCompletedValue
            | Stage::RegisteringWait | Stage::Waiting | Stage::ReadingFrameIndex | Stage::Ready
            | Stage::Recording | Stage::Executing | Stage::Presenting | Stage::ClosingFenceEvent
            | Stage::Destroyed => true,
            _ => false,
        }
    }

    /// Whether the fence has been signaled and the synchronization is not
    /// over.
    pub open spec fn signal_in_flight(self) -> bool {
        match self.stage {
            Stage::ReadingCompletedValue | Stage::RegisteringWait | Stage::Waiting
            | Stage::ReadingFrameIndex => true,
            _ => false,
        }
    }

    /// Whether nothing has been asked of the driver yet, or the validation
    /// layer only.
    pub open spec fn before_factory(self) -> bool {
        self.stage == Stage::Created || self.stage == Stage::EnablingValidation
    }

    /// What holds of a renderer at all times: in a build that asks for the
    /// validation layer, the layer is enabled before anything else is asked
    /// of the driver, so before any device is created; the swap chain has
    /// between one and sixteen buffers; the index of the back buffer is below
    /// their number; no more render-target views exist than buffers, and as
    /// many once they have all been created; a command list that is recorded
    /// is not complete, and one that is handed to the queue or presented is
    /// complete, so closed; the view of the vertex buffer counts as many
    /// bytes as the vertices take; the fence value is ahead of the value last
    /// signaled by one while a signal is in flight; and the renderer has a
    /// failure if and only if it has failed.
    pub open spec fn wf(self) -> bool {
        &&& self.validation_enabled && !self.before_factory() && self.stage != Stage::Failed
            ==> self.validation_active
        &&& self.validation_active || self.stage == Stage::EnablingValidation
            ==> self.validation_enabled
        &&& 1 <= self.frame_count <= MAX_SWAP_CHAIN_BUFFERS
        &&& self.frame_index < self.frame_count
        &&& self.render_target_count <= self.frame_count
        &&& self.stage == Stage::CreatingRenderTarget ==> self.render_target_count
            < self.frame_count
        &&& self.views_created() ==> self.render_target_count == self.frame_count
        &&& self.stage == Stage::Recording ==> self.recorded < COMMANDS_PER_FRAME
        &&& self.stage == Stage::Executing || self.stage == Stage::Presenting ==> self.recorded
            == COMMANDS_PER_FRAME
        &&& self.vertices_uploaded() ==> self.vertex_buffer_view == view_of(
            self.vertex_buffer_view.buffer_location,
            TRIANGLE_VERTEX_COUNT as int,
        )
        &&& self.fence_created() ==> self.fence_value >= 1
        &&& self.signal_in_flight() ==> self.signaled_value + 1 == self.fence_value
        &&& (self.stage == Stage::Failed) == self.failure.is_some()
    }
}

/// A renderer that has loaded nothing is well formed.
pub proof fn lemma_initial_is_wf(validation_enabled: bool)
    ensures
        RendererState::initial(validation_enabled).wf(),
{
}

proof fn lemma_pipeline_preserves_wf(state: RendererState, reply: Reply)
    requires
        state.wf(),
    ensures
        state.advance_pipeline(reply).wf(),
{
}

proof fn lemma_assets_preserve_wf(state: RendererState, reply: Reply)
    requires
        state.wf(),
    ensures
        state.advance_assets(reply).wf(),
{
}

proof fn lemma_sync_preserves_wf(state: RendererState, reply: Reply)
    requires
        state.wf(),
    ensures
        state.advance_sync(reply).wf(),
{
}

proof fn lemma_frame_preserves_wf(state: RendererState, reply: Reply)
    requires
        state.wf(),
    ensures
        state.advance_frame(reply).wf(),
{
}

/// Whatever the driver answers, a well-formed renderer stays well formed.
pub proof fn lemma_advance_preserves_wf(state: RendererState, reply: Reply)
    requires
        state.wf(),
    ensures
        state.advance(reply).wf(),
{
    lemma_pipeline_preserves_wf(state, reply);
    lemma_assets_preserve_wf(state, reply);
    lemma_sync_preserves_wf(state, reply);
    lemma_frame_preserves_wf(state, reply);
}

/// Starting a run leaves a well-formed renderer well formed.
pub proof fn lemma_begin_preserves_wf(state: RendererState, window: Window)
    requires
        state.wf(),
    ensures
        state.begin_pipeline(window).wf(),
        state.begin_assets().wf(),
        state.begin_wait().wf(),
        state.begin_frame().wf(),
        state.begin_teardown().wf(),
{
}

/// A command list is recorded anew only by a renderer that is idle: the
/// frame before has been synchronized with, and nothing is queued.
pub proof fn lemma_recording_starts_idle(state: RendererState, reply: Reply, window: Window)
    requires
        state.stage != Stage::Recording,
    ensures
        state.advance(reply).stage != Stage::Recording,
        state.begin_frame().stage == Stage::Recording ==> state.stage == Stage::Ready,
        state.begin_pipeline(window).stage != Stage::Recording,
        state.begin_wait().stage != Stage::Recording,
        state.begin_teardown().stage != Stage::Recording,
        state.begin_assets().stage != Stage::Recording,
{
}

/// A renderer becomes idle only when a synchronization ends, and a closed
/// command list is handed to the queue only once all its commands are
/// recorded.
pub proof fn lemma_idle_follows_synchronization(state: RendererState, reply: Reply)
    requires
        state.wf(),
    ensures
        state.stage != Stage::Ready && state.advance(reply).stage == Stage::Ready ==> state.stage
            == Stage::ReadingFrameIndex && reply.value < state.frame_count,
        state.stage != Stage::Executing && state.advance(reply).stage == Stage::Executing
            ==> state.stage == Stage::Recording && state.recorded + 1 == COMMANDS_PER_FRAME,
{
}

} // verus!
