use presenter_remote::session::{Action, Event, Peripheral, Phase, ReadState, StartupStep};

fn serving() -> Peripheral {
    let (mut peripheral, first) = Peripheral::start();
    assert_eq!(first, Action::Perform(StartupStep::OpenSession));
    assert_eq!(peripheral.step(Event::StepSucceeded), Action::Perform(StartupStep::PowerOn));
    assert_eq!(
        peripheral.step(Event::StepSucceeded),
        Action::Perform(StartupStep::RegisterAdvertisement)
    );
    assert_eq!(peripheral.step(Event::StepSucceeded), Action::Perform(StartupStep::RegisterGatt));
    assert_eq!(peripheral.step(Event::StepSucceeded), Action::Await);
    peripheral
}

fn run(peripheral: &mut Peripheral, events: Vec<Event>) -> Vec<Vec<u8>> {
    let mut payloads = Vec::new();
    for event in events {
        assert!(peripheral.admits(&event));
        if let Action::Deliver(payload) = peripheral.step(event) {
            payloads.push(payload);
        }
    }
    payloads
}

#[test]
fn start_begins_with_opening_the_session() {
    let (peripheral, first) = Peripheral::start();
    assert_eq!(peripheral.phase(), Phase::Starting(StartupStep::OpenSession));
    assert!(peripheral.reading().is_none());
    assert_eq!(first, Action::Perform(StartupStep::OpenSession));
}

#[test]
fn start_reaches_serving_when_every_step_succeeds() {
    let peripheral = serving();
    assert_eq!(peripheral.phase(), Phase::Serving);
    assert!(peripheral.reading().is_none());
}

#[test]
fn start_fails_at_the_first_step_that_fails() {
    for failing in 0..4 {
        let (mut peripheral, _) = Peripheral::start();
        let mut payloads = 0;
        for index in 0..4 {
            let event = if index == failing { Event::StepFailed } else { Event::StepSucceeded };
            let action = peripheral.step(event);
            if let Action::Deliver(_) = action {
                payloads += 1;
            }
            if index == failing {
                assert_eq!(action, Action::Abort);
            } else if index > failing {
                assert_eq!(action, Action::Ignore);
            }
        }
        assert_eq!(peripheral.phase(), Phase::Failed);
        assert_eq!(payloads, 0);
    }
}

#[test]
fn nothing_is_delivered_before_serving() {
    let (mut peripheral, _) = Peripheral::start();
    let action = peripheral.step(Event::ReadCompleted { buffer: vec![1, 2, 3], count: 3 });
    assert_eq!(action, Action::Ignore);
    assert_eq!(peripheral.step(Event::WriteAccepted { transfer_unit: 3 }), Action::Ignore);
    assert_eq!(peripheral.phase(), Phase::Starting(StartupStep::OpenSession));
    assert!(peripheral.reading().is_none());
}

#[test]
fn accepted_write_opens_a_session_of_zeros() {
    let mut peripheral = serving();
    assert_eq!(peripheral.step(Event::WriteAccepted { transfer_unit: 5 }), Action::Await);
    let session = peripheral.reading().expect("a session is open");
    assert_eq!(session.transfer_unit(), 5);
    assert_eq!(session.buffer(), &[0u8, 0, 0, 0, 0][..]);
}

#[test]
fn read_state_starts_as_zeros_of_the_transfer_unit() {
    let state = ReadState::new(23);
    assert_eq!(state.transfer_unit(), 23);
    assert_eq!(state.buffer(), &[0u8; 23][..]);
    let empty = ReadState::new(0);
    assert_eq!(empty.transfer_unit(), 0);
    assert!(empty.buffer().is_empty());
}

#[test]
fn two_sessions_deliver_their_bytes_in_order() {
    let mut peripheral = serving();
    let payloads = run(
        &mut peripheral,
        vec![
            Event::WriteAccepted { transfer_unit: 1 },
            Event::ReadCompleted { buffer: vec![0x01], count: 1 },
            Event::ReadCompleted { buffer: vec![0x01], count: 0 },
            Event::WriteAccepted { transfer_unit: 1 },
            Event::ReadCompleted { buffer: vec![0x02], count: 1 },
            Event::ReadCompleted { buffer: vec![0x02], count: 0 },
        ],
    );
    assert_eq!(payloads, vec![vec![0x01u8], vec![0x02u8]]);
    assert_eq!(peripheral.phase(), Phase::Serving);
}

#[test]
fn one_write_of_three_bytes_is_one_payload() {
    let mut peripheral = serving();
    let payloads = run(
        &mut peripheral,
        vec![
            Event::WriteAccepted { transfer_unit: 3 },
            Event::ReadCompleted { buffer: vec![0x01, 0x02, 0x03], count: 3 },
            Event::ReadCompleted { buffer: vec![0x01, 0x02, 0x03], count: 0 },
        ],
    );
    assert_eq!(payloads, vec![vec![0x01u8, 0x02, 0x03]]);
}

#[test]
fn payload_is_the_front_of_the_buffer() {
    let mut peripheral = serving();
    peripheral.step(Event::WriteAccepted { transfer_unit: 5 });
    let action = peripheral.step(Event::ReadCompleted { buffer: vec![9, 8, 7, 0, 0], count: 3 });
    assert_eq!(action, Action::Deliver(vec![9, 8, 7]));
    let session = peripheral.reading().expect("the session stays open");
    assert_eq!(session.transfer_unit(), 5);
    assert_eq!(session.buffer(), &[9u8, 8, 7, 0, 0][..]);
}

#[test]
fn chunks_of_one_session_arrive_in_the_order_read() {
    let mut peripheral = serving();
    let payloads = run(
        &mut peripheral,
        vec![
            Event::WriteAccepted { transfer_unit: 4 },
            Event::ReadCompleted { buffer: vec![1, 2, 3, 4], count: 4 },
            Event::ReadCompleted { buffer: vec![5, 6, 3, 4], count: 2 },
            Event::ReadCompleted { buffer: vec![7, 6, 3, 4], count: 1 },
        ],
    );
    assert_eq!(payloads, vec![vec![1u8, 2, 3, 4], vec![5u8, 6], vec![7u8]]);
    assert!(peripheral.reading().is_some());
}

#[test]
fn failed_read_drops_the_session_and_serving_goes_on() {
    let mut peripheral = serving();
    let payloads = run(
        &mut peripheral,
        vec![Event::WriteAccepted { transfer_unit: 2 }, Event::ReadFailed],
    );
    assert!(payloads.is_empty());
    assert_eq!(peripheral.phase(), Phase::Serving);
    assert!(peripheral.reading().is_none());
    let payloads = run(
        &mut peripheral,
        vec![
            Event::WriteAccepted { transfer_unit: 2 },
            Event::ReadCompleted { buffer: vec![0x02, 0x00], count: 1 },
        ],
    );
    assert_eq!(payloads, vec![vec![0x02u8]]);
}

#[test]
fn failed_read_answers_with_waiting() {
    let mut peripheral = serving();
    peripheral.step(Event::WriteAccepted { transfer_unit: 2 });
    assert_eq!(peripheral.step(Event::ReadFailed), Action::Await);
    assert_eq!(peripheral.step(Event::ReadFailed), Action::Ignore);
}

#[test]
fn new_session_replaces_the_open_one_without_a_payload() {
    let mut peripheral = serving();
    peripheral.step(Event::WriteAccepted { transfer_unit: 4 });
    peripheral.step(Event::ReadCompleted { buffer: vec![1, 2, 0, 0], count: 2 });
    let action = peripheral.step(Event::WriteAccepted { transfer_unit: 2 });
    assert_eq!(action, Action::Await);
    let session = peripheral.reading().expect("the new session is open");
    assert_eq!(session.transfer_unit(), 2);
    assert_eq!(session.buffer(), &[0u8, 0][..]);
}

#[test]
fn empty_read_ends_the_session_without_a_payload() {
    let mut peripheral = serving();
    peripheral.step(Event::WriteAccepted { transfer_unit: 3 });
    let action = peripheral.step(Event::ReadCompleted { buffer: vec![4, 5, 6], count: 0 });
    assert_eq!(action, Action::Await);
    assert!(peripheral.reading().is_none());
    assert_eq!(peripheral.phase(), Phase::Serving);
    let action = peripheral.step(Event::ReadCompleted { buffer: vec![4, 5, 6], count: 3 });
    assert_eq!(action, Action::Ignore);
}

#[test]
fn session_of_transfer_unit_zero_ends_at_its_first_read() {
    let mut peripheral = serving();
    assert_eq!(peripheral.step(Event::WriteAccepted { transfer_unit: 0 }), Action::Await);
    assert_eq!(peripheral.reading().map(|s| s.transfer_unit()), Some(0));
    let action = peripheral.step(Event::ReadCompleted { buffer: Vec::new(), count: 0 });
    assert_eq!(action, Action::Await);
    assert!(peripheral.reading().is_none());
}

#[test]
fn end_of_the_control_source_finishes_the_run() {
    let mut peripheral = serving();
    peripheral.step(Event::WriteAccepted { transfer_unit: 3 });
    assert_eq!(peripheral.step(Event::ControlClosed), Action::Finish);
    assert_eq!(peripheral.phase(), Phase::Stopped);
    assert!(peripheral.reading().is_none());
}

#[test]
fn failed_accept_aborts_the_run() {
    let mut peripheral = serving();
    assert_eq!(peripheral.step(Event::AcceptFailed), Action::Abort);
    assert_eq!(peripheral.phase(), Phase::Failed);
    assert_eq!(peripheral.step(Event::WriteAccepted { transfer_unit: 3 }), Action::Ignore);
    assert!(peripheral.reading().is_none());
}

#[test]
fn stop_twice_is_stop_once() {
    let mut peripheral = serving();
    peripheral.step(Event::WriteAccepted { transfer_unit: 1 });
    assert_eq!(peripheral.step(Event::StopRequested), Action::Finish);
    let stopped = peripheral.clone();
    assert_eq!(peripheral.step(Event::StopRequested), Action::Ignore);
    assert_eq!(peripheral, stopped);
    assert_eq!(peripheral.phase(), Phase::Stopped);
    let action = peripheral.step(Event::ReadCompleted { buffer: vec![1], count: 1 });
    assert_eq!(action, Action::Ignore);
}

#[test]
fn stop_during_the_start_ends_it() {
    let (mut peripheral, _) = Peripheral::start();
    peripheral.step(Event::StepSucceeded);
    assert_eq!(peripheral.step(Event::StopRequested), Action::Finish);
    assert_eq!(peripheral.phase(), Phase::Stopped);
    assert_eq!(peripheral.step(Event::StepSucceeded), Action::Ignore);
}

#[test]
fn step_reports_mean_nothing_while_serving() {
    let mut peripheral = serving();
    assert_eq!(peripheral.step(Event::StepFailed), Action::Ignore);
    assert_eq!(peripheral.step(Event::StepSucceeded), Action::Ignore);
    assert_eq!(peripheral.phase(), Phase::Serving);
}

#[test]
fn only_a_read_that_fits_the_session_is_admitted() {
    let mut peripheral = serving();
    assert!(peripheral.admits(&Event::ReadCompleted { buffer: vec![1, 2], count: 9 }));
    peripheral.step(Event::WriteAccepted { transfer_unit: 3 });
    assert!(peripheral.admits(&Event::ReadCompleted { buffer: vec![1, 2, 3], count: 3 }));
    assert!(peripheral.admits(&Event::ReadCompleted { buffer: vec![1, 2, 3], count: 0 }));
    assert!(!peripheral.admits(&Event::ReadCompleted { buffer: vec![1, 2, 3], count: 4 }));
    assert!(!peripheral.admits(&Event::ReadCompleted { buffer: vec![1, 2], count: 1 }));
    assert!(peripheral.admits(&Event::ReadFailed));
    assert!(peripheral.admits(&Event::StopRequested));
}

#[test]
fn replay_hands_back_the_payloads_of_the_run() {
    let (mut peripheral, _) = Peripheral::start();
    let payloads = peripheral.replay(&[
        Event::StepSucceeded,
        Event::StepSucceeded,
        Event::StepSucceeded,
        Event::StepSucceeded,
        Event::WriteAccepted { transfer_unit: 3 },
        Event::ReadCompleted { buffer: vec![1, 2, 3], count: 3 },
        Event::ReadCompleted { buffer: vec![4, 2, 3], count: 1 },
        Event::ReadFailed,
        Event::WriteAccepted { transfer_unit: 2 },
        Event::ReadCompleted { buffer: vec![5, 6], count: 2 },
        Event::ReadCompleted { buffer: vec![5, 6], count: 0 },
        Event::ControlClosed,
        Event::WriteAccepted { transfer_unit: 2 },
    ]);
    assert_eq!(payloads, vec![vec![1u8, 2, 3], vec![4u8], vec![5u8, 6]]);
    assert_eq!(peripheral.phase(), Phase::Stopped);
    assert!(peripheral.reading().is_none());
}

#[test]
fn replay_of_nothing_changes_nothing() {
    let mut peripheral = serving();
    let before = peripheral.clone();
    assert!(peripheral.replay(&[]).is_empty());
    assert_eq!(peripheral, before);
}

#[test]
fn replay_agrees_with_stepping() {
    let events = vec![
        Event::WriteAccepted { transfer_unit: 2 },
        Event::ReadCompleted { buffer: vec![7, 0], count: 1 },
        Event::WriteAccepted { transfer_unit: 1 },
        Event::ReadCompleted { buffer: vec![8], count: 1 },
        Event::StopRequested,
        Event::StopRequested,
    ];
    let mut stepped = serving();
    let mut replayed = serving();
    let by_steps = run(&mut stepped, events.clone());
    assert_eq!(replayed.replay(&events), by_steps);
    assert_eq!(by_steps, vec![vec![7u8], vec![8u8]]);
    assert_eq!(replayed, stepped);
}

#[test]
fn a_start_that_fails_delivers_nothing() {
    let (mut peripheral, _) = Peripheral::start();
    let payloads = peripheral.replay(&[
        Event::StepSucceeded,
        Event::StepFailed,
        Event::StepSucceeded,
        Event::StepSucceeded,
        Event::WriteAccepted { transfer_unit: 1 },
        Event::ReadCompleted { buffer: vec![1], count: 1 },
    ]);
    assert!(payloads.is_empty());
    assert_eq!(peripheral.phase(), Phase::Failed);
}
