//! The peripheral that streams writes through an event loop, as a state
//! machine.
//!
//! The loop itself waits on the radio, so it cannot live here. It reports each
//! thing that happened as an [`Event`], and [`Peripheral::step`] answers with
//! the next state and the [`Action`] the loop has to carry out.

use vstd::prelude::*;
use vstd::slice::slice_subrange;
use vstd::slice::slice_to_vec;

verus! {

/// One piece of outside work that brings the peripheral up. The steps run in
/// the order in which they are listed, and the first one that fails ends the
/// start.
#[derive(Clone, Copy, Debug, PartialEq, Eq, Structural)]
pub enum StartupStep {
    /// Open a session with the radio stack and take its default adapter.
    OpenSession,
    /// Power the adapter on.
    PowerOn,
    /// Register the advertisement with the radio.
    RegisterAdvertisement,
    /// Register the GATT application with the radio.
    RegisterGatt,
}

/// Where a peripheral stands in its life.
#[derive(Clone, Copy, Debug, PartialEq, Eq, Structural)]
pub enum Phase {
    /// Coming up: the given step is the one being carried out.
    Starting(StartupStep),
    /// Advertising and ready for write sessions.
    Serving,
    /// Ended in good order.
    Stopped,
    /// Ended by an error of the radio stack.
    Failed,
}

/// What the event loop reports.
#[derive(Clone, Debug, PartialEq, Eq)]
pub enum Event {
    /// The startup step in progress succeeded.
    StepSucceeded,
    /// The startup step in progress failed.
    StepFailed,
    /// A central asked to write and the request was accepted, with the transfer
    /// unit negotiated for this session.
    WriteAccepted { transfer_unit: usize },
    /// A central asked to write and accepting the request failed.
    AcceptFailed,
    /// The control source ended or yielded anything but a write request.
    ControlClosed,
    /// A read on the write stream returned: the buffer as the read left it,
    /// and the number of bytes that were read into its front.
    ReadCompleted { buffer: Vec<u8>, count: usize },
    /// A read on the write stream failed.
    ReadFailed,
    /// The caller asked the peripheral to stop.
    StopRequested,
}

/// What the event loop has to do next.
#[derive(Clone, Debug, PartialEq, Eq)]
pub enum Action {
    /// Carry out this startup step and report how it went.
    Perform(StartupStep),
    /// Wait for the next event.
    Await,
    /// Hand this payload to the handler, then wait for the next event.
    Deliver(Vec<u8>),
    /// Leave the loop: the run ended in good order.
    Finish,
    /// Leave the loop with the error of the operation that failed.
    Abort,
    /// The event has no meaning in the current state: carry on as before.
    Ignore,
}

/// An [`Event`] as a mathematical value.
pub enum EventModel {
    StepSucceeded,
    StepFailed,
    WriteAccepted { transfer_unit: nat },
    AcceptFailed,
    ControlClosed,
    ReadCompleted { buffer: Seq<u8>, count: nat },
    ReadFailed,
    StopRequested,
}

/// An [`Action`] as a mathematical value.
pub enum ActionModel {
    Perform(StartupStep),
    Await,
    Deliver(Seq<u8>),
    Finish,
    Abort,
    Ignore,
}

/// A [`Peripheral`] as a mathematical value: its phase, and the buffer of the
/// write session in progress, if there is one. The transfer unit of that
/// session is the buffer's length.
pub struct Model {
    pub phase: Phase,
    pub reading: Option<Seq<u8>>,
}

/// A state together with the action decided on the way into it.
pub struct Outcome {
    pub state: Model,
    pub action: ActionModel,
}

impl View for Event {
    type V = EventModel;

    open spec fn view(&self) -> EventModel {
        match *self {
            Event::StepSucceeded => EventModel::StepSucceeded,
            Event::StepFailed => EventModel::StepFailed,
            Event::WriteAccepted { transfer_unit } => EventModel::WriteAccepted {
                transfer_unit: transfer_unit as nat,
            },
            Event::AcceptFailed => EventModel::AcceptFailed,
            Event::ControlClosed => EventModel::ControlClosed,
            Event::ReadCompleted { buffer, count } => EventModel::ReadCompleted {
                buffer: buffer@,
                count: count as nat,
            },
            Event::ReadFailed => EventModel::ReadFailed,
            Event::StopRequested => EventModel::StopRequested,
        }
    }
}

impl View for Action {
    type V = ActionModel;

    open spec fn view(&self) -> ActionModel {
        match *self {
            Action::Perform(step) => ActionModel::Perform(step),
            Action::Await => ActionModel::Await,
            Action::Deliver(payload) => ActionModel::Deliver(payload@),
            Action::Finish => ActionModel::Finish,
            Action::Abort => ActionModel::Abort,
            Action::Ignore => ActionModel::Ignore,
        }
    }
}

/// A buffer of `len` zero bytes.
pub open spec fn zeros(len: nat) -> Seq<u8> {
    Seq::new(len, |i: int| 0u8)
}

/// The state in which every peripheral begins.
pub open spec fn initial() -> Model {
    Model { phase: Phase::Starting(StartupStep::OpenSession), reading: None }
}

/// The phase that follows a startup step that succeeded.
pub open spec fn phase_after(step: StartupStep) -> Phase {
    match step {
        StartupStep::OpenSession => Phase::Starting(StartupStep::PowerOn),
        StartupStep::PowerOn => Phase::Starting(StartupStep::RegisterAdvertisement),
        StartupStep::RegisterAdvertisement => Phase::Starting(StartupStep::RegisterGatt),
        StartupStep::RegisterGatt => Phase::Serving,
    }
}

/// The action that leads into a phase reached by a startup step: the next
/// step, or waiting once the peripheral serves.
pub open spec fn action_entering(phase: Phase) -> ActionModel {
    match phase {
        Phase::Starting(step) => ActionModel::Perform(step),
        _ => ActionModel::Await,
    }
}

/// Whether a report fits the state it is reported to. Only a completed read
/// during a write session is bound: its buffer is that session's buffer, so it
/// has the session's transfer unit as its length, and no more bytes were read
/// than the buffer holds.
pub open spec fn admits(state: Model, event: EventModel) -> bool {
    match (state.phase, state.reading, event) {
        (Phase::Serving, Some(current), EventModel::ReadCompleted { buffer, count }) => {
            buffer.len() == current.len() && count <= buffer.len()
        },
        _ => true,
    }
}

/// The transition of the state machine.
///
/// While starting, a step that succeeds leads to the next step and the last
/// one to serving; a step that fails ends the peripheral as failed. While
/// serving, an accepted write request opens a write session with a fresh
/// buffer of the negotiated transfer unit, in place of any session before it;
/// a read of zero bytes or a failed read closes the session; a read of `count`
/// bytes delivers the first `count` bytes of the buffer; a failed accept ends
/// the peripheral as failed and the end of the control source ends it in good
/// order. A request to stop ends a peripheral that has not ended yet. Every
/// other event changes nothing.
pub open spec fn transition(state: Model, event: EventModel) -> Outcome {
    let ignored = Outcome { state, action: ActionModel::Ignore };
    match state.phase {
        Phase::Starting(step) => match event {
            EventModel::StepSucceeded => Outcome {
                state: Model { phase: phase_after(step), reading: state.reading },
                action: action_entering(phase_after(step)),
            },
            EventModel::StepFailed => Outcome {
                state: Model { phase: Phase::Failed, reading: state.reading },
                action: ActionModel::Abort,
            },
            EventModel::StopRequested => Outcome {
                state: Model { phase: Phase::Stopped, reading: state.reading },
                action: ActionModel::Finish,
            },
            _ => ignored,
        },
        Phase::Serving => match event {
            EventModel::WriteAccepted { transfer_unit } => Outcome {
                state: Model { phase: Phase::Serving, reading: Some(zeros(transfer_unit)) },
                action: ActionModel::Await,
            },
            EventModel::AcceptFailed => Outcome {
                state: Model { phase: Phase::Failed, reading: None },
                action: ActionModel::Abort,
            },
            EventModel::ControlClosed | EventModel::StopRequested => Outcome {
                state: Model { phase: Phase::Stopped, reading: None },
                action: ActionModel::Finish,
            },
            EventModel::ReadCompleted { buffer, count } => if state.reading is None {
                ignored
            } else if count == 0 {
                Outcome {
                    state: Model { phase: Phase::Serving, reading: None },
                    action: ActionModel::Await,
                }
            } else {
                Outcome {
                    state: Model { phase: Phase::Serving, reading: Some(buffer) },
                    action: ActionModel::Deliver(buffer.subrange(0, count as int)),
                }
            },
            EventModel::ReadFailed => if state.reading is None {
                ignored
            } else {
                Outcome {
                    state: Model { phase: Phase::Serving, reading: None },
                    action: ActionModel::Await,
                }
            },
            _ => ignored,
        },
        Phase::Stopped | Phase::Failed => ignored,
    }
}

/// The state that a run of events leads to, from `state`.
pub open spec fn state_after(state: Model, events: Seq<EventModel>) -> Model
    decreases events.len(),
{
    if events.len() == 0 {
        state
    } else {
        transition(state_after(state, events.drop_last()), events.last()).state
    }
}

/// The payloads handed to the handler during a run of events from `state`,
/// first to last.
pub open spec fn delivered(state: Model, events: Seq<EventModel>) -> Seq<Seq<u8>>
    decreases events.len(),
{
    if events.len() == 0 {
        Seq::empty()
    } else {
        let earlier = delivered(state, events.drop_last());
        match transition(state_after(state, events.drop_last()), events.last()).action {
            ActionModel::Deliver(payload) => earlier.push(payload),
            _ => earlier,
        }
    }
}

/// Whether every event of a run fits the state it is reported to.
pub open spec fn run_admitted(state: Model, events: Seq<EventModel>) -> bool {
    forall|i: int|
        0 <= i < events.len() ==> admits(state_after(state, events.take(i)), #[trigger] events[i])
}

/// A sequence of events as mathematical values.
pub open spec fn event_models(events: Seq<Event>) -> Seq<EventModel> {
    events.map_values(|event: Event| event@)
}

/// A sequence of payloads as mathematical values.
pub open spec fn payload_models(payloads: Seq<Vec<u8>>) -> Seq<Seq<u8>> {
    payloads.map_values(|payload: Vec<u8>| payload@)
}

/// The state of one write session: the transfer unit negotiated for it and the
/// buffer that its reads fill. The buffer is always as long as the transfer
/// unit.
#[derive(Clone, Debug, PartialEq, Eq)]
pub struct ReadState {
    transfer_unit: usize,
    buffer: Vec<u8>,
}

impl ReadState {
    /// The buffer is as long as the transfer unit.
    pub closed spec fn wf(&self) -> bool {
        self.buffer@.len() == self.transfer_unit
    }

    /// The buffer's contents.
    pub closed spec fn view(&self) -> Seq<u8> {
        self.buffer@
    }

    /// The state of a session that was just accepted: a buffer of
    /// `transfer_unit` zero bytes.
    pub fn new(transfer_unit: usize) -> (state: ReadState)
        ensures
            state.wf(),
            state@ == zeros(transfer_unit as nat),
    {
        let buffer: Vec<u8> = vec![0u8; transfer_unit];
        assert(buffer@ =~= zeros(transfer_unit as nat));
        ReadState { transfer_unit, buffer }
    }

    /// The state of a session after a read that left `buffer` behind.
    fn holding(buffer: Vec<u8>) -> (state: ReadState)
        ensures
            state.wf(),
            state@ == buffer@,
    {
        ReadState { transfer_unit: buffer.len(), buffer }
    }

    /// The transfer unit negotiated for the session.
    pub fn transfer_unit(&self) -> (unit: usize)
        requires
            self.wf(),
        ensures
            unit == self@.len(),
    {
        self.transfer_unit
    }

    /// The buffer, for the next read to fill.
    pub fn buffer(&self) -> (bytes: &[u8])
        ensures
            bytes@ == self@,
    {
        self.buffer.as_slice()
    }
}

/// A copy of an event.
fn copy_event(event: &Event) -> (copy: Event)
    ensures
        copy@ == event@,
{
    match event {
        Event::StepSucceeded => Event::StepSucceeded,
        Event::StepFailed => Event::StepFailed,
        Event::WriteAccepted { transfer_unit } => Event::WriteAccepted {
            transfer_unit: *transfer_unit,
        },
        Event::AcceptFailed => Event::AcceptFailed,
        Event::ControlClosed => Event::ControlClosed,
        Event::ReadCompleted { buffer, count } => Event::ReadCompleted {
            buffer: slice_to_vec(buffer.as_slice()),
            count: *count,
        },
        Event::ReadFailed => Event::ReadFailed,
        Event::StopRequested => Event::StopRequested,
    }
}

/// The peripheral's state: its phase and, while a central writes, the state of
/// that write session. There is never more than one session, and only a
/// serving peripheral has one.
#[derive(Clone, Debug, PartialEq, Eq)]
pub struct Peripheral {
    phase: Phase,
    reading: Option<ReadState>,
}

impl View for Peripheral {
    type V = Model;

    closed spec fn view(&self) -> Model {
        Model {
            phase: self.phase,
            reading: match self.reading {
                Some(session) => Some(session@),
                None => None,
            },
        }
    }
}

impl Peripheral {
    /// A write session exists only while serving, and its buffer is as long as
    /// its transfer unit.
    pub closed spec fn wf(&self) -> bool {
        match self.reading {
            Some(session) => self.phase == Phase::Serving && session.wf(),
            None => true,
        }
    }

    /// A peripheral about to start, and the first thing to do for it: open a
    /// session with the radio.
    pub fn start() -> (begun: (Peripheral, Action))
        ensures
            begun.0.wf(),
            begun.0@ == initial(),
            begun.1@ == ActionModel::Perform(StartupStep::OpenSession),
    {
        (
            Peripheral { phase: Phase::Starting(StartupStep::OpenSession), reading: None },
            Action::Perform(StartupStep::OpenSession),
        )
    }

    /// The current phase.
    pub fn phase(&self) -> (phase: Phase)
        ensures
            phase == self@.phase,
    {
        self.phase
    }

    /// The write session in progress, if there is one.
    pub fn reading(&self) -> (session: Option<&ReadState>)
        requires
            self.wf(),
        ensures
            session is Some <==> self@.reading is Some,
            session is Some ==> session->0.wf() && Some(session->0@) == self@.reading,
    {
        self.reading.as_ref()
    }

    /// Whether `event` may be reported to this peripheral: see [`admits`].
    pub fn admits(&self, event: &Event) -> (fits: bool)
        requires
            self.wf(),
        ensures
            fits == admits(self@, event@),
    {
        match (&self.reading, event) {
            (Some(session), Event::ReadCompleted { buffer, count }) => {
                buffer.len() == session.transfer_unit() && *count <= buffer.len()
            },
            _ => true,
        }
    }

    /// Takes one event and decides what follows, as [`transition`] says.
    pub fn step(&mut self, event: Event) -> (action: Action)
        requires
            old(self).wf(),
            admits(old(self)@, event@),
        ensures
            final(self).wf(),
            final(self)@ == transition(old(self)@, event@).state,
            action@ == transition(old(self)@, event@).action,
    {
        match self.phase {
            Phase::Starting(step) => match event {
                Event::StepSucceeded => {
                    let next = match step {
                        StartupStep::OpenSession => Phase::Starting(StartupStep::PowerOn),
                        StartupStep::PowerOn => Phase::Starting(
                            StartupStep::RegisterAdvertisement,
                        ),
                        StartupStep::RegisterAdvertisement => Phase::Starting(
                            StartupStep::RegisterGatt,
                        ),
                        StartupStep::RegisterGatt => Phase::Serving,
                    };
                    self.phase = next;
                    match next {
                        Phase::Starting(following) => Action::Perform(following),
                        _ => Action::Await,
                    }
                },
                Event::StepFailed => {
                    self.phase = Phase::Failed;
                    Action::Abort
                },
                Event::StopRequested => {
                    self.phase = Phase::Stopped;
                    Action::Finish
                },
                _ => Action::Ignore,
            },
            Phase::Serving => match event {
                Event::WriteAccepted { transfer_unit } => {
                    self.reading = Some(ReadState::new(transfer_unit));
                    Action::Await
                },
                Event::AcceptFailed => {
                    self.phase = Phase::Failed;
                    self.reading = None;
                    Action::Abort
                },
                Event::ControlClosed | Event::StopRequested => {
                    self.phase = Phase::Stopped;
                    self.reading = None;
                    Action::Finish
                },
                Event::ReadCompleted { buffer, count } => {
                    if self.reading.is_none() {
                        Action::Ignore
                    } else if count == 0 {
                        self.reading = None;
                        Action::Await
                    } else {
                        let payload = slice_to_vec(slice_subrange(buffer.as_slice(), 0, count));
                        self.reading = Some(ReadState::holding(buffer));
                        Action::Deliver(payload)
                    }
                },
                Event::ReadFailed => {
                    if self.reading.is_none() {
                        Action::Ignore
                    } else {
                        self.reading = None;
                        Action::Await
                    }
                },
                _ => Action::Ignore,
            },
            Phase::Stopped | Phase::Failed => Action::Ignore,
        }
    }
    /// Takes a recorded run of events, one after the other, and hands back the
    /// payloads that the run delivers, first to last.
    pub fn replay(&mut self, events: &[Event]) -> (payloads: Vec<Vec<u8>>)
        requires
            old(self).wf(),
            run_admitted(old(self)@, event_models(events@)),
        ensures
            final(self).wf(),
            final(self)@ == state_after(old(self)@, event_models(events@)),
            payload_models(payloads@) == delivered(old(self)@, event_models(events@)),
    {
        let ghost begin = self@;
        let ghost run = event_models(events@);
        let mut payloads: Vec<Vec<u8>> = Vec::new();
        let mut i: usize = 0;
        assert(payload_models(payloads@) =~= delivered(begin, run.take(0)));
        while i < events.len()
            invariant
                i <= events.len(),
                self.wf(),
                begin == old(self)@,
                run == event_models(events@),
                run_admitted(begin, run),
                self@ == state_after(begin, run.take(i as int)),
                payload_models(payloads@) == delivered(begin, run.take(i as int)),
            decreases events.len() - i,
        {
            let event = copy_event(&events[i]);
            proof {
                assert(event@ == run[i as int]);
                assert(run.take(i + 1).drop_last() =~= run.take(i as int));
                assert(run.take(i + 1).last() == run[i as int]);
            }
            let ghost before = payloads@;
            match self.step(event) {
                Action::Deliver(payload) => {
                    payloads.push(payload);
                    assert(payload_models(payloads@) =~= payload_models(before).push(payload@));
                },
                _ => {},
            }
            i += 1;
        }
        assert(run.take(i as int) =~= run);
        payloads
    }
}

} // verus!
