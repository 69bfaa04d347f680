//! Courses of events, and what holds of the renderer at their end.

use vstd::prelude::*;
use crate::error::hr_succeeded;
use crate::error::RendererError;
use crate::error::DXGI_ERROR_NOT_FOUND;
use crate::invariants::lemma_advance_preserves_wf;
use crate::invariants::lemma_begin_preserves_wf;
use crate::state::RendererState;
use crate::state::Reply;
use crate::state::Stage;
use crate::window::Window;

verus! {

/// What happens to a renderer: the program starts a run, or the driver
/// answers a call.
pub enum Event {
    LoadPipeline(Window),
    LoadAssets,
    Wait,
    Render,
    Destroy,
    Answer(Reply),
}

impl RendererState {
    /// The state after `event`.
    #[verifier::opaque]
    pub open spec fn after(self, event: Event) -> RendererState {
        match event {
            Event::LoadPipeline(window) => self.begin_pipeline(window),
            Event::LoadAssets => self.begin_assets(),
            Event::Wait => self.begin_wait(),
            Event::Render => self.begin_frame(),
            Event::Destroy => self.begin_teardown(),
            Event::Answer(reply) => self.advance(reply),
        }
    }

    /// The state after `events`, the first of them first.
    #[verifier::opaque]
    pub open spec fn after_all(self, events: Seq<Event>) -> RendererState
        decreases events.len(),
    {
        if events.len() == 0 {
            self
        } else {
            self.after_all(events.drop_last()).after(events.last())
        }
    }

    /// Whether `event` ends a synchronization of this state: the swap chain
    /// names a back buffer that it has.
    pub open spec fn completes_synchronization(self, event: Event) -> bool {
        self.stage == Stage::ReadingFrameIndex && self.after(event).stage != Stage::ReadingFrameIndex
            && self.after(event).stage != Stage::Failed
    }

    /// How many synchronizations end in the course of `events`.
    #[verifier::opaque]
    pub open spec fn synchronizations(self, events: Seq<Event>) -> nat
        decreases events.len(),
    {
        if events.len() == 0 {
            0
        } else {
            let earlier = self.synchronizations(events.drop_last());
            if self.after_all(events.drop_last()).completes_synchronization(events.last()) {
                earlier + 1
            } else {
                earlier
            }
        }
    }

    /// Whether the renderer is past its loading: it is idle, busy with a
    /// frame or a synchronization, or torn down.
    pub open spec fn is_loaded(self) -> bool {
        match self.stage {
            Stage::Ready | Stage::Recording | Stage::Executing | Stage::Presenting
            | Stage::Signaling | Stage::ReadingCompletedValue | Stage::RegisteringWait
            | Stage::Waiting | Stage::ReadingFrameIndex | Stage::ClosingFenceEvent
            | Stage::Destroyed => true,
            _ => false,
        }
    }
}

/// An event that starts a run leads where the run begins, and an answer of
/// the driver where it moves the renderer on to.
pub proof fn lemma_after_unfolds(state: RendererState, event: Event)
    ensures
        state.after(event) == match event {
            Event::LoadPipeline(window) => state.begin_pipeline(window),
            Event::LoadAssets => state.begin_assets(),
            Event::Wait => state.begin_wait(),
            Event::Render => state.begin_frame(),
            Event::Destroy => state.begin_teardown(),
            Event::Answer(reply) => state.advance(reply),
        },
{
    reveal(RendererState::after);
}

/// No event leaves the state as it is, and a further event leads on from
/// where the events before it led.
pub proof fn lemma_after_all_unfolds(state: RendererState, events: Seq<Event>)
    ensures
        events.len() == 0 ==> state.after_all(events) == state,
        events.len() > 0 ==> state.after_all(events) == state.after_all(events.drop_last()).after(
            events.last(),
        ),
{
    reveal(RendererState::after_all);
}

/// No event ends no synchronization, and a further event adds one if it ends
/// one.
pub proof fn lemma_synchronizations_unfold(state: RendererState, events: Seq<Event>)
    ensures
        events.len() == 0 ==> state.synchronizations(events) == 0,
        events.len() > 0 ==> state.synchronizations(events) == state.synchronizations(
            events.drop_last(),
        ) + if state.after_all(events.drop_last()).completes_synchronization(events.last()) {
            1nat
        } else {
            0nat
        },
{
    reveal(RendererState::synchronizations);
}

/// Events lead from a well-formed state to a well-formed state: the back
/// buffer index stays below the number of buffers, and a renderer that has
/// all its render-target views keeps as many views as buffers.
pub proof fn lemma_events_preserve_wf(state: RendererState, events: Seq<Event>)
    requires
        state.wf(),
    ensures
        state.after_all(events).wf(),
    decreases events.len(),
{
    lemma_after_all_unfolds(state, events);
    if events.len() > 0 {
        lemma_events_preserve_wf(state, events.drop_last());
        let before = state.after_all(events.drop_last());
        lemma_after_unfolds(before, events.last());
        match events.last() {
            Event::LoadPipeline(window) => lemma_begin_preserves_wf(before, window),
            Event::Answer(reply) => lemma_advance_preserves_wf(before, reply),
            _ => lemma_begin_preserves_wf(before, before.window),
        }
    }
}

/// A renderer that has failed stays failed, whatever happens.
pub proof fn lemma_failure_is_final(state: RendererState, events: Seq<Event>)
    requires
        state.stage == Stage::Failed,
    ensures
        state.after_all(events) == state,
    decreases events.len(),
{
    lemma_after_all_unfolds(state, events);
    if events.len() > 0 {
        lemma_failure_is_final(state, events.drop_last());
        lemma_after_unfolds(state, events.last());
    }
}

/// At every point of a course of events that starts past the loading, the
/// renderer has failed, or its fence value is the one it started with plus
/// the number of synchronizations that have ended, plus one while a signal is
/// in flight.
pub proof fn lemma_fence_follows_synchronizations(state: RendererState, events: Seq<Event>)
    requires
        state.wf(),
        state.is_loaded(),
        !state.signal_in_flight(),
    ensures
        ({
            let end = state.after_all(events);
            end.stage == Stage::Failed || (end.is_loaded() && end.fence_value == state.fence_value
                + state.synchronizations(events) + if end.signal_in_flight() {
                1nat
            } else {
                0nat
            })
        }),
    decreases events.len(),
{
    lemma_after_all_unfolds(state, events);
    lemma_synchronizations_unfold(state, events);
    if events.len() > 0 {
        lemma_fence_follows_synchronizations(state, events.drop_last());
        lemma_events_preserve_wf(state, events.drop_last());
        lemma_after_unfolds(state.after_all(events.drop_last()), events.last());
    }
}

/// After `n` synchronizations the fence value is the initial value plus `n`:
/// where a course of events leads a renderer that is idle to a renderer that
/// is idle, its fence value has grown by the number of synchronizations that
/// ended on the way.
pub proof fn lemma_fence_value_after_frames(state: RendererState, events: Seq<Event>)
    requires
        state.wf(),
        state.stage == Stage::Ready,
        state.after_all(events).stage == Stage::Ready,
    ensures
        state.after_all(events).fence_value == state.fence_value + state.synchronizations(events),
{
    lemma_fence_follows_synchronizations(state, events);
}

/// The driver's answers while one adapter is examined: it is enumerated and
/// cast, the interface of the enumeration is released, and a device is
/// tried on it. A capable adapter accepts the device, which is released; one
/// that is not refuses it, and is released itself.
pub open spec fn examination(capable: bool, accept: Reply, refuse: Reply) -> Seq<Event> {
    seq![
        Event::Answer(accept),
        Event::Answer(accept),
        Event::Answer(accept),
        Event::Answer(if capable {
            accept
        } else {
            refuse
        }),
        Event::Answer(accept),
    ]
}

/// The driver's answers while the adapters are examined in their order, up
/// to the first capable one, or to the end of the enumeration where none is
/// capable. `capable` says of each adapter whether it supports the minimum
/// feature level.
pub open spec fn enumeration(capable: Seq<bool>, accept: Reply, refuse: Reply, not_found: Reply)
    -> Seq<Event>
    decreases capable.len(),
{
    if capable.len() == 0 {
        seq![Event::Answer(not_found)]
    } else if capable[0] {
        examination(true, accept, refuse)
    } else {
        examination(false, accept, refuse) + enumeration(
            capable.skip(1),
            accept,
            refuse,
            not_found,
        )
    }
}

/// The position of the first capable adapter; the number of adapters where
/// none is capable.
pub open spec fn first_capable(capable: Seq<bool>) -> nat
    decreases capable.len(),
{
    if capable.len() == 0 || capable[0] {
        0
    } else {
        1 + first_capable(capable.skip(1))
    }
}

/// Events that follow one another lead where the first lot and then the
/// second lead.
pub proof fn lemma_events_compose(state: RendererState, first: Seq<Event>, second: Seq<Event>)
    ensures
        state.after_all(first + second) == state.after_all(first).after_all(second),
    decreases second.len(),
{
    lemma_after_all_unfolds(state.after_all(first), second);
    if second.len() == 0 {
        assert(first + second == first);
    } else {
        lemma_events_compose(state, first, second.drop_last());
        lemma_after_all_unfolds(state, first + second);
        assert((first + second).drop_last() == first + second.drop_last());
        assert((first + second).last() == second.last());
    }
}

/// Where one answer of the driver moves a renderer that examines an
/// adapter, if the answer is no failure where only success lets it go on.
pub open spec fn examination_step(state: RendererState, accepted: bool) -> RendererState {
    match state.stage {
        Stage::EnumeratingAdapter => state.at(Stage::CastingAdapter),
        Stage::CastingAdapter => state.at(Stage::ReleasingEnumeration),
        Stage::ReleasingEnumeration => state.at(Stage::ProbingAdapter),
        Stage::ProbingAdapter => if accepted {
            state.at(Stage::ReleasingProbe)
        } else {
            state.at(Stage::ReleasingAdapter)
        },
        Stage::ReleasingProbe => state.at(Stage::CreatingDevice),
        Stage::ReleasingAdapter => RendererState {
            stage: Stage::EnumeratingAdapter,
            adapter_index: (state.adapter_index + 1) as u32,
            ..state
        },
        _ => state,
    }
}

proof fn lemma_examination_step(state: RendererState, reply: Reply)
    requires
        state.adapter_index < u32::MAX,
        hr_succeeded(reply.status) || state.stage == Stage::ProbingAdapter,
        state.stage == Stage::EnumeratingAdapter || state.stage == Stage::CastingAdapter
            || state.stage == Stage::ReleasingEnumeration || state.stage == Stage::ProbingAdapter
            || state.stage == Stage::ReleasingProbe || state.stage == Stage::ReleasingAdapter,
    ensures
        state.after(Event::Answer(reply)) == examination_step(state, hr_succeeded(reply.status)),
{
    lemma_after_unfolds(state, Event::Answer(reply));
}

proof fn lemma_examination(state: RendererState, capable: bool, accept: Reply, refuse: Reply)
    requires
        state.stage == Stage::EnumeratingAdapter,
        state.adapter_index < u32::MAX,
        hr_succeeded(accept.status),
        !hr_succeeded(refuse.status),
    ensures
        capable ==> state.after_all(examination(capable, accept, refuse)) == state.at(
            Stage::CreatingDevice,
        ),
        !capable ==> state.after_all(examination(capable, accept, refuse)) == (RendererState {
            adapter_index: (state.adapter_index + 1) as u32,
            ..state
        }),
{
    let events = examination(capable, accept, refuse);
    let probe = if capable {
        accept
    } else {
        refuse
    };
    let none = events.take(0);
    let one = events.take(1);
    let two = events.take(2);
    let three = events.take(3);
    let four = events.take(4);
    assert(one.drop_last() == none && one.last() == Event::Answer(accept));
    assert(two.drop_last() == one && two.last() == Event::Answer(accept));
    assert(three.drop_last() == two && three.last() == Event::Answer(accept));
    assert(four.drop_last() == three && four.last() == Event::Answer(probe));
    assert(events.drop_last() == four && events.last() == Event::Answer(accept));
    lemma_after_all_unfolds(state, none);
    lemma_after_all_unfolds(state, one);
    lemma_examination_step(state, accept);
    lemma_after_all_unfolds(state, two);
    lemma_examination_step(state.at(Stage::CastingAdapter), accept);
    lemma_after_all_unfolds(state, three);
    lemma_examination_step(state.at(Stage::ReleasingEnumeration), accept);
    lemma_after_all_unfolds(state, four);
    lemma_examination_step(state.at(Stage::ProbingAdapter), probe);
    lemma_after_all_unfolds(state, events);
    if capable {
        lemma_examination_step(state.at(Stage::ReleasingProbe), accept);
    } else {
        lemma_examination_step(state.at(Stage::ReleasingAdapter), accept);
    }
}

/// The first capable adapter is capable, and no adapter before it is.
pub proof fn lemma_first_capable(capable: Seq<bool>)
    ensures
        first_capable(capable) <= capable.len(),
        first_capable(capable) < capable.len() ==> capable[first_capable(capable) as int],
        forall|earlier: int| 0 <= earlier < first_capable(capable) ==> !capable[earlier],
    decreases capable.len(),
{
    if capable.len() > 0 && !capable[0] {
        let rest = capable.skip(1);
        lemma_first_capable(rest);
        assert forall|earlier: int| 0 <= earlier < first_capable(capable) implies !capable[earlier] by {
            if earlier > 0 {
                assert(capable[earlier] == rest[earlier - 1]);
            }
        }
        if first_capable(rest) < rest.len() {
            assert(capable[first_capable(capable) as int] == rest[first_capable(rest) as int]);
        }
    }
}

/// Where a renderer that is about to enumerate an adapter ends up once the
/// adapters have been examined: about to create its device on the first
/// capable adapter, or failed where none is capable.
pub open spec fn after_selection(state: RendererState, capable: Seq<bool>) -> RendererState {
    let moved = RendererState {
        adapter_index: (state.adapter_index + first_capable(capable)) as u32,
        ..state
    };
    if first_capable(capable) < capable.len() {
        moved.at(Stage::CreatingDevice)
    } else {
        moved.failed_with(RendererError::AdapterEnumerationExhausted)
    }
}

proof fn lemma_selection_step(state: RendererState, capable: Seq<bool>)
    requires
        capable.len() > 0,
        !capable[0],
        state.adapter_index + capable.len() < u32::MAX,
    ensures
        after_selection(
            RendererState { adapter_index: (state.adapter_index + 1) as u32, ..state },
            capable.skip(1),
        ) == after_selection(state, capable),
{
    lemma_first_capable(capable.skip(1));
}

/// The adapter that is selected is the first capable one, and where none is
/// capable the enumeration is exhausted: a renderer that is about to
/// enumerate an adapter and then gets the driver's answers for adapters of
/// which `capable` tells whether they support the minimum feature level, goes
/// on to create its device on the first capable adapter, having moved on by
/// as many adapters as come before it; where there is none, it fails with
/// the enumeration exhausted.
pub proof fn lemma_first_capable_adapter_is_selected(
    state: RendererState,
    capable: Seq<bool>,
    accept: Reply,
    refuse: Reply,
    not_found: Reply,
)
    requires
        state.stage == Stage::EnumeratingAdapter,
        state.adapter_index + capable.len() < u32::MAX,
        hr_succeeded(accept.status),
        !hr_succeeded(refuse.status),
        not_found.status == DXGI_ERROR_NOT_FOUND,
    ensures
        state.after_all(enumeration(capable, accept, refuse, not_found)) == after_selection(
            state,
            capable,
        ),
    decreases capable.len(),
{
    let events = enumeration(capable, accept, refuse, not_found);
    if capable.len() == 0 {
        assert(events.drop_last() == Seq::<Event>::empty());
        lemma_after_all_unfolds(state, events.drop_last());
        lemma_after_all_unfolds(state, events);
        lemma_after_unfolds(state, events.last());
    } else if capable[0] {
        lemma_examination(state, true, accept, refuse);
    } else {
        let rest = capable.skip(1);
        let next = RendererState { adapter_index: (state.adapter_index + 1) as u32, ..state };
        lemma_examination(state, false, accept, refuse);
        lemma_events_compose(
            state,
            examination(false, accept, refuse),
            enumeration(rest, accept, refuse, not_found),
        );
        lemma_first_capable_adapter_is_selected(next, rest, accept, refuse, not_found);
        lemma_selection_step(state, capable);
    }
}

} // verus!
