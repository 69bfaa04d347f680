//! Every run ends: once an adapter is selected, each answer of the driver
//! brings the renderer closer to rest.

use vstd::prelude::*;
use crate::command::COMMANDS_PER_FRAME;
use crate::state::RendererState;
use crate::state::Reply;
use crate::state::Request;
use crate::state::Run;
use crate::state::Stage;

verus! {

impl RendererState {
    /// Whether the renderer is still looking for an adapter. How long that
    /// takes is up to the driver: it lasts until an adapter is capable or the
    /// enumeration ends.
    pub open spec fn is_selecting(self) -> bool {
        match self.stage {
            Stage::EnablingValidation | Stage::CreatingFactory | Stage::EnumeratingAdapter
            | Stage::CastingAdapter | Stage::ReleasingEnumeration | Stage::ProbingAdapter
            | Stage::ReleasingProbe | Stage::ReleasingAdapter => true,
            _ => false,
        }
    }

    /// Native calls that a synchronization takes at most from its signal on,
    /// the closing of the event included where it is the last one.
    pub open spec fn synchronization_calls(self) -> nat {
        if self.tearing_down {
            6
        } else {
            5
        }
    }

    /// The most native calls that the renderer asks for before it comes to
    /// rest, once an adapter is selected.
    pub open spec fn calls_left(self) -> nat {
        match self.stage {
            Stage::CreatingDevice => (9 + self.frame_count) as nat,
            Stage::CreatingCommandQueue => (8 + self.frame_count) as nat,
            Stage::CreatingSwapChain => (7 + self.frame_count) as nat,
            Stage::UpgradingSwapChain => (6 + self.frame_count) as nat,
            Stage::ReadingBackBuffer => (5 + self.frame_count) as nat,
            Stage::CreatingDescriptorHeap => (4 + self.frame_count) as nat,
            Stage::ReadingDescriptorSize => (3 + self.frame_count) as nat,
            Stage::ReadingHeapStart => (2 + self.frame_count) as nat,
            Stage::CreatingRenderTarget => (1 + self.frame_count - self.render_target_count) as nat,
            Stage::CreatingCommandAllocator => 1,
            Stage::SerializingRootSignature => 19,
            Stage::CreatingRootSignature => 18,
            Stage::CompilingVertexShader => 17,
            Stage::CompilingPixelShader => 16,
            Stage::CreatingPipelineState => 15,
            Stage::CreatingCommandList => 14,
            Stage::ClosingCommandList => 13,
            Stage::CreatingVertexBuffer => 12,
            Stage::MappingVertexBuffer => 11,
            Stage::WritingVertices => 10,
            Stage::UnmappingVertexBuffer => 9,
            Stage::ReadingGpuAddress => 8,
            Stage::CreatingFence => 7,
            Stage::CreatingFenceEvent => 6,
            Stage::Recording => (COMMANDS_PER_FRAME - self.recorded + 7) as nat,
            Stage::Executing => 7,
            Stage::Presenting => 6,
            Stage::Signaling => self.synchronization_calls(),
            Stage::ReadingCompletedValue => (self.synchronization_calls() - 1) as nat,
            Stage::RegisteringWait => (self.synchronization_calls() - 2) as nat,
            Stage::Waiting => (self.synchronization_calls() - 3) as nat,
            Stage::ReadingFrameIndex => (self.synchronization_calls() - 4) as nat,
            Stage::ClosingFenceEvent => 1,
            _ => 0,
        }
    }

    /// Whether `next` is closer to rest than this state, and past the
    /// selection of the adapter as this state is.
    pub open spec fn is_closer_to_rest(self, next: RendererState) -> bool {
        !next.is_selecting() && if self.calls_left() > 0 {
            next.calls_left() < self.calls_left()
        } else {
            next == self
        }
    }
}

proof fn lemma_pipeline_brings_rest(state: RendererState, reply: Reply)
    requires
        state.wf(),
        !state.is_selecting(),
        state.stage.run() == Run::Pipeline,
    ensures
        state.is_closer_to_rest(state.advance_pipeline(reply)),
{
}

proof fn lemma_assets_bring_rest(state: RendererState, reply: Reply)
    requires
        state.wf(),
        !state.is_selecting(),
        state.stage.run() == Run::Assets,
    ensures
        state.is_closer_to_rest(state.advance_assets(reply)),
{
}

proof fn lemma_sync_brings_rest(state: RendererState, reply: Reply)
    requires
        state.wf(),
        !state.is_selecting(),
        state.stage.run() == Run::Synchronization,
    ensures
        state.is_closer_to_rest(state.advance_sync(reply)),
{
}

proof fn lemma_frame_brings_rest(state: RendererState, reply: Reply)
    requires
        state.wf(),
        !state.is_selecting(),
        state.stage.run() == Run::Frame,
    ensures
        state.is_closer_to_rest(state.advance_frame(reply)),
{
}

/// A renderer that has selected its adapter has calls left exactly while it
/// asks for a native call.
pub proof fn lemma_calls_left_while_asking(state: RendererState)
    requires
        state.wf(),
        !state.is_selecting(),
    ensures
        state.calls_left() == 0 <==> state.request() == Request::Done || state.request()
            == Request::Abort,
{
}

/// Every answer leaves a renderer that has selected its adapter with fewer
/// calls left: a run comes to rest after at most `calls_left` answers,
/// whatever they are.
pub proof fn lemma_answers_bring_rest(state: RendererState, reply: Reply)
    requires
        state.wf(),
        !state.is_selecting(),
    ensures
        state.is_closer_to_rest(state.advance(reply)),
{
    match state.stage.run() {
        Run::Rest => {},
        Run::Pipeline => lemma_pipeline_brings_rest(state, reply),
        Run::Assets => lemma_assets_bring_rest(state, reply),
        Run::Synchronization => lemma_sync_brings_rest(state, reply),
        Run::Frame => lemma_frame_brings_rest(state, reply),
    }
}

/// A frame takes at most twenty native calls, and a synchronization by
/// itself at most five.
pub proof fn lemma_frame_is_bounded(state: RendererState)
    requires
        state.stage == Stage::Ready,
    ensures
        state.begin_frame().calls_left() == 20,
        state.begin_wait().calls_left() == 5,
        state.begin_teardown().calls_left() == 6,
{
}

} // verus!
