//! What holds of the peripheral's state machine over whole runs: which
//! payloads reach the handler, in which order, and when none does.

use vstd::prelude::*;
use crate::session::ActionModel;
use crate::session::EventModel;
use crate::session::Model;
use crate::session::Outcome;
use crate::session::Phase;
use crate::session::admits;
use crate::session::delivered;
use crate::session::initial;
use crate::session::state_after;
use crate::session::transition;
use crate::session::zeros;

verus! {

/// Whether an event is a read that brought at least one byte.
pub open spec fn is_chunk(event: EventModel) -> bool {
    event is ReadCompleted && event->count > 0
}

/// The bytes that a read brought: the front of its buffer.
pub open spec fn chunk(event: EventModel) -> Seq<u8> {
    event->buffer.subrange(0, event->count as int)
}

/// The reports of a start whose steps went as `outcomes` says, `true` for a
/// step that succeeded.
pub open spec fn step_reports(outcomes: Seq<bool>) -> Seq<EventModel> {
    Seq::new(
        outcomes.len(),
        |i: int|
            if outcomes[i] {
                EventModel::StepSucceeded
            } else {
                EventModel::StepFailed
            },
    )
}

/// A payload is delivered only by a read of at least one byte, during a write
/// session of a serving peripheral, and it is that read's bytes.
pub proof fn lemma_only_a_read_delivers(state: Model, event: EventModel)
    requires
        transition(state, event).action is Deliver,
    ensures
        state.phase == Phase::Serving,
        state.reading is Some,
        is_chunk(event),
        transition(state, event).action == ActionModel::Deliver(chunk(event)),
{
}

/// A start of four steps ends serving if and only if every step succeeded.
/// Otherwise it ends failed. Either way nothing reached the handler on the
/// way.
pub proof fn lemma_start_succeeds_iff_every_step_does(outcomes: Seq<bool>)
    requires
        outcomes.len() == 4,
    ensures
        state_after(initial(), step_reports(outcomes)).phase == (if outcomes[0] && outcomes[1]
            && outcomes[2] && outcomes[3] {
            Phase::Serving
        } else {
            Phase::Failed
        }),
        state_after(initial(), step_reports(outcomes)).reading is None,
        delivered(initial(), step_reports(outcomes)) == Seq::<Seq<u8>>::empty(),
{
    let e4 = step_reports(outcomes);
    let e3 = e4.drop_last();
    let e2 = e3.drop_last();
    let e1 = e2.drop_last();
    let e0 = e1.drop_last();
    assert(e0.len() == 0);
    assert(e1.last() == e4[0] && e2.last() == e4[1] && e3.last() == e4[2] && e4.last() == e4[3]);
    reveal_with_fuel(state_after, 5);
    reveal_with_fuel(delivered, 5);
    assert(state_after(initial(), e0) == initial());
    assert(delivered(initial(), e0) == Seq::<Seq<u8>>::empty());
}

/// Within one write session the handler gets one payload for each read that
/// brought bytes, equal to those bytes, in the order of the reads; and the
/// session is still open afterwards.
pub proof fn lemma_session_delivers_each_chunk_in_order(state: Model, reads: Seq<EventModel>)
    requires
        state.phase == Phase::Serving,
        state.reading is Some,
        forall|i: int| 0 <= i < reads.len() ==> is_chunk(#[trigger] reads[i]),
    ensures
        delivered(state, reads) == Seq::new(reads.len(), |i: int| chunk(reads[i])),
        state_after(state, reads).phase == Phase::Serving,
        state_after(state, reads).reading is Some,
    decreases reads.len(),
{
    if reads.len() == 0 {
        assert(delivered(state, reads) =~= Seq::new(reads.len(), |i: int| chunk(reads[i])));
    } else {
        let earlier = reads.drop_last();
        lemma_session_delivers_each_chunk_in_order(state, earlier);
        assert(is_chunk(reads.last()));
        assert(delivered(state, reads) =~= Seq::new(reads.len(), |i: int| chunk(reads[i])));
    }
}

/// A write request accepted while a session is open replaces that session:
/// whatever its buffer held, nothing is delivered and the new session starts
/// from a buffer of zeros with the new transfer unit.
pub proof fn lemma_new_session_discards_the_old(state: Model, transfer_unit: nat)
    requires
        state.phase == Phase::Serving,
    ensures
        transition(state, EventModel::WriteAccepted { transfer_unit }) == (Outcome {
            state: Model { phase: Phase::Serving, reading: Some(zeros(transfer_unit)) },
            action: ActionModel::Await,
        }),
{
}

/// A run in two parts: the second part starts from the state that the first
/// part leads to, and what the run delivers is what the first part delivers
/// followed by what the second does.
pub proof fn lemma_run_in_two_parts(state: Model, first: Seq<EventModel>, rest: Seq<EventModel>)
    ensures
        state_after(state, first + rest) == state_after(state_after(state, first), rest),
        delivered(state, first + rest) == delivered(state, first) + delivered(
            state_after(state, first),
            rest,
        ),
    decreases rest.len(),
{
    if rest.len() == 0 {
        assert(first + rest =~= first);
        assert(delivered(state, first) + Seq::<Seq<u8>>::empty() =~= delivered(state, first));
    } else {
        let whole = first + rest;
        assert(whole.drop_last() =~= first + rest.drop_last());
        assert(whole.last() == rest.last());
        lemma_run_in_two_parts(state, first, rest.drop_last());
        let middle = state_after(state, first);
        let earlier = delivered(middle, rest.drop_last());
        match transition(state_after(middle, rest.drop_last()), rest.last()).action {
            ActionModel::Deliver(payload) => {
                assert(delivered(state, first) + earlier.push(payload) =~= (delivered(state, first)
                    + earlier).push(payload));
            },
            _ => {},
        }
    }
}

/// Once a new session has replaced an open one, nothing that is delivered
/// afterwards depends on the session that was replaced: two serving
/// peripherals that differ only in their open session deliver the same
/// payloads from the new write request on.
pub proof fn lemma_replaced_session_leaves_no_trace(
    one: Model,
    other: Model,
    transfer_unit: nat,
    later: Seq<EventModel>,
)
    requires
        one.phase == Phase::Serving,
        other.phase == Phase::Serving,
    ensures
        delivered(one, seq![EventModel::WriteAccepted { transfer_unit }] + later) == delivered(
            other,
            seq![EventModel::WriteAccepted { transfer_unit }] + later,
        ),
{
    let accepted = seq![EventModel::WriteAccepted { transfer_unit }];
    assert(accepted.drop_last().len() == 0);
    assert(accepted.last() == EventModel::WriteAccepted { transfer_unit });
    reveal_with_fuel(state_after, 2);
    reveal_with_fuel(delivered, 2);
    lemma_run_in_two_parts(one, accepted, later);
    lemma_run_in_two_parts(other, accepted, later);
    assert(state_after(one, accepted) == state_after(other, accepted));
    assert(delivered(one, accepted) == delivered(other, accepted));
}

/// A read of zero bytes closes the write session and delivers nothing, and
/// until a new session is accepted further reads are ignored.
pub proof fn lemma_empty_read_ends_the_session(
    state: Model,
    buffer: Seq<u8>,
    later: EventModel,
)
    requires
        state.phase == Phase::Serving,
        state.reading is Some,
        later is ReadCompleted || later is ReadFailed,
    ensures
        transition(state, EventModel::ReadCompleted { buffer, count: 0 }) == (Outcome {
            state: Model { phase: Phase::Serving, reading: None },
            action: ActionModel::Await,
        }),
        transition(
            transition(state, EventModel::ReadCompleted { buffer, count: 0 }).state,
            later,
        ) == (Outcome {
            state: Model { phase: Phase::Serving, reading: None },
            action: ActionModel::Ignore,
        }),
{
}

/// A failed read closes the write session and delivers nothing; the
/// peripheral keeps serving and takes the next write request.
pub proof fn lemma_failed_read_keeps_serving(state: Model, transfer_unit: nat)
    requires
        state.phase == Phase::Serving,
        state.reading is Some,
    ensures
        transition(state, EventModel::ReadFailed) == (Outcome {
            state: Model { phase: Phase::Serving, reading: None },
            action: ActionModel::Await,
        }),
        transition(
            transition(state, EventModel::ReadFailed).state,
            EventModel::WriteAccepted { transfer_unit },
        ).state.reading == Some(zeros(transfer_unit)),
{
}

/// A read that brings bytes leaves the session with the transfer unit it
/// had: the buffer is as long after the read as before it.
pub proof fn lemma_read_keeps_the_transfer_unit(state: Model, event: EventModel)
    requires
        state.phase == Phase::Serving,
        state.reading is Some,
        is_chunk(event),
        admits(state, event),
    ensures
        transition(state, event).state.reading is Some,
        transition(state, event).state.reading->0.len() == state.reading->0.len(),
{
}

/// Only a serving peripheral has a write session, whatever run of events
/// led to its state.
pub proof fn lemma_session_only_while_serving(events: Seq<EventModel>)
    ensures
        state_after(initial(), events).reading is Some ==> state_after(initial(), events).phase
            == Phase::Serving,
    decreases events.len(),
{
    if events.len() > 0 {
        lemma_session_only_while_serving(events.drop_last());
    }
}

/// Asking to stop ends the peripheral, and asking again changes nothing:
/// the state stays as the first request left it, and neither request
/// delivers a payload.
pub proof fn lemma_stop_is_idempotent(state: Model)
    ensures
        ({
            let once = transition(state, EventModel::StopRequested);
            let twice = transition(once.state, EventModel::StopRequested);
            &&& once.state.phase == Phase::Stopped || once.state.phase == Phase::Failed
            &&& !(once.action is Deliver)
            &&& twice.state == once.state
            &&& twice.action == ActionModel::Ignore
        }),
{
}

/// A peripheral that has ended stays as it is and delivers nothing, whatever
/// is reported to it.
pub proof fn lemma_ended_stays_silent(state: Model, events: Seq<EventModel>)
    requires
        state.phase == Phase::Stopped || state.phase == Phase::Failed,
    ensures
        state_after(state, events) == state,
        delivered(state, events) == Seq::<Seq<u8>>::empty(),
    decreases events.len(),
{
    if events.len() > 0 {
        lemma_ended_stays_silent(state, events.drop_last());
    }
}

} // verus!
