use libsystemd::transport::{
    is_oversized_payload_error, Action, Event, Operation, Outcome, State, Transport, EMSGSIZE,
};

fn feed(transport: &mut Transport, events: &[Event]) -> Vec<Action> {
    events.iter().map(|event| transport.step(*event)).collect()
}

#[test]
fn oversized_is_emsgsize_only() {
    assert_eq!(EMSGSIZE, 90);
    assert_eq!(EMSGSIZE, libc::EMSGSIZE);
    assert!(is_oversized_payload_error(Some(90)));
    assert!(!is_oversized_payload_error(Some(91)));
    assert!(!is_oversized_payload_error(Some(libc::ENOENT)));
    assert!(!is_oversized_payload_error(Some(0)));
    assert!(!is_oversized_payload_error(None));
}

#[test]
fn new_transport_is_idle() {
    let transport = Transport::new(10);
    assert_eq!(transport.current(), State::Idle);
    assert_eq!(transport.outcome(), None);
    assert!(!transport.owns_descriptor());
}

#[test]
fn not_available_ends_at_once() {
    let mut transport = Transport::new(10);
    let action = transport.step(Event::Start { available: false });
    assert_eq!(action, Action::Finish { outcome: Outcome::NotAvailable, close: false });
    assert_eq!(transport.outcome(), Some(Outcome::NotAvailable));
}

#[test]
fn fast_path_never_touches_memory() {
    let mut transport = Transport::new(39);
    let actions = feed(
        &mut transport,
        &[Event::Start { available: true }, Event::Completed, Event::Completed],
    );
    assert_eq!(
        actions,
        vec![
            Action::OpenSocket,
            Action::SendDatagram,
            Action::Finish { outcome: Outcome::Sent, close: false },
        ]
    );
    assert_eq!(transport.outcome(), Some(Outcome::Sent));
    assert!(!transport.owns_descriptor());
}

#[test]
fn oversized_datagram_falls_back() {
    let len = 212995 + 20;
    let mut transport = Transport::new(len);
    let actions = feed(
        &mut transport,
        &[
            Event::Start { available: true },
            Event::Completed,
            Event::Failed { code: Some(EMSGSIZE) },
            Event::Completed,
            Event::Wrote { count: len },
            Event::Completed,
        ],
    );
    assert_eq!(
        actions,
        vec![
            Action::OpenSocket,
            Action::SendDatagram,
            Action::CreateMemory,
            Action::Write { from: 0 },
            Action::Seal,
            Action::SendDescriptor,
        ]
    );
    assert!(transport.owns_descriptor());
    assert_eq!(transport.outcome(), None);
    assert_eq!(
        transport.step(Event::Completed),
        Action::Finish { outcome: Outcome::Sent, close: true }
    );
    assert!(!transport.owns_descriptor());
    assert_eq!(transport.outcome(), Some(Outcome::Sent));
}

#[test]
fn partial_writes_are_continued() {
    let mut transport = Transport::new(10);
    feed(
        &mut transport,
        &[
            Event::Start { available: true },
            Event::Completed,
            Event::Failed { code: Some(EMSGSIZE) },
        ],
    );
    assert_eq!(transport.step(Event::Completed), Action::Write { from: 0 });
    assert_eq!(transport.step(Event::Wrote { count: 4 }), Action::Write { from: 4 });
    assert_eq!(transport.current(), State::Writing { written: 4 });
    assert_eq!(transport.step(Event::Wrote { count: 5 }), Action::Write { from: 9 });
    assert_eq!(transport.step(Event::Wrote { count: 1 }), Action::Seal);
    assert_eq!(transport.current(), State::Sealing);
}

#[test]
fn empty_record_is_sealed_without_a_write() {
    let mut transport = Transport::new(0);
    feed(
        &mut transport,
        &[
            Event::Start { available: true },
            Event::Completed,
            Event::Failed { code: Some(EMSGSIZE) },
        ],
    );
    assert_eq!(transport.step(Event::Completed), Action::Seal);
}

#[test]
fn write_of_nothing_stalls() {
    let mut transport = Transport::new(10);
    feed(
        &mut transport,
        &[
            Event::Start { available: true },
            Event::Completed,
            Event::Failed { code: Some(EMSGSIZE) },
            Event::Completed,
        ],
    );
    assert_eq!(
        transport.step(Event::Wrote { count: 0 }),
        Action::Finish { outcome: Outcome::WriteStalled, close: true }
    );
}

#[test]
fn write_of_more_than_is_left_stalls() {
    let mut transport = Transport::new(10);
    feed(
        &mut transport,
        &[
            Event::Start { available: true },
            Event::Completed,
            Event::Failed { code: Some(EMSGSIZE) },
            Event::Completed,
            Event::Wrote { count: 6 },
        ],
    );
    assert_eq!(
        transport.step(Event::Wrote { count: 5 }),
        Action::Finish { outcome: Outcome::WriteStalled, close: true }
    );
}

#[test]
fn other_errors_do_not_fall_back() {
    for code in [Some(libc::ECONNREFUSED), Some(libc::ENOENT), Some(0), None] {
        let mut transport = Transport::new(10);
        feed(&mut transport, &[Event::Start { available: true }, Event::Completed]);
        let outcome = Outcome::Failed { operation: Operation::SendDatagram, code };
        assert_eq!(
            transport.step(Event::Failed { code }),
            Action::Finish { outcome, close: false }
        );
        assert_eq!(transport.outcome(), Some(outcome));
    }
}

#[test]
fn each_operation_can_fail() {
    let code = Some(libc::EPERM);
    let start = Event::Start { available: true };
    let refused = Event::Failed { code: Some(EMSGSIZE) };
    let cases: Vec<(Vec<Event>, Operation, bool)> = vec![
        (vec![start], Operation::OpenSocket, false),
        (vec![start, Event::Completed, refused], Operation::CreateMemory, false),
        (vec![start, Event::Completed, refused, Event::Completed], Operation::Write, true),
        (
            vec![start, Event::Completed, refused, Event::Completed, Event::Wrote { count: 3 }],
            Operation::Seal,
            true,
        ),
        (
            vec![
                start,
                Event::Completed,
                refused,
                Event::Completed,
                Event::Wrote { count: 3 },
                Event::Completed,
            ],
            Operation::SendDescriptor,
            true,
        ),
    ];
    for (events, operation, close) in cases {
        let mut transport = Transport::new(3);
        feed(&mut transport, &events);
        assert_eq!(transport.owns_descriptor(), close);
        let outcome = Outcome::Failed { operation, code };
        assert_eq!(transport.step(Event::Failed { code }), Action::Finish { outcome, close });
        assert!(!transport.owns_descriptor());
    }
}

#[test]
fn oversized_error_of_the_descriptor_send_is_a_failure() {
    let mut transport = Transport::new(3);
    feed(
        &mut transport,
        &[
            Event::Start { available: true },
            Event::Completed,
            Event::Failed { code: Some(EMSGSIZE) },
            Event::Completed,
            Event::Wrote { count: 3 },
            Event::Completed,
        ],
    );
    let outcome =
        Outcome::Failed { operation: Operation::SendDescriptor, code: Some(EMSGSIZE) };
    assert_eq!(
        transport.step(Event::Failed { code: Some(EMSGSIZE) }),
        Action::Finish { outcome, close: true }
    );
}

#[test]
fn unexpected_reports_end_the_send() {
    let mut transport = Transport::new(3);
    assert_eq!(
        transport.step(Event::Completed),
        Action::Finish { outcome: Outcome::Unexpected, close: false }
    );
    let mut transport = Transport::new(3);
    feed(&mut transport, &[Event::Start { available: true }, Event::Completed]);
    assert_eq!(
        transport.step(Event::Wrote { count: 3 }),
        Action::Finish { outcome: Outcome::Unexpected, close: false }
    );
}

#[test]
fn ended_send_stays_ended() {
    let mut transport = Transport::new(3);
    feed(
        &mut transport,
        &[Event::Start { available: true }, Event::Completed, Event::Completed],
    );
    for event in [
        Event::Start { available: true },
        Event::Completed,
        Event::Wrote { count: 1 },
        Event::Failed { code: Some(EMSGSIZE) },
    ] {
        assert_eq!(
            transport.step(event),
            Action::Finish { outcome: Outcome::Sent, close: false }
        );
        assert_eq!(transport.current(), State::Ended { outcome: Outcome::Sent });
    }
}

#[test]
fn unexpected_report_with_a_memory_file_closes_it() {
    let mut transport = Transport::new(3);
    feed(
        &mut transport,
        &[
            Event::Start { available: true },
            Event::Completed,
            Event::Failed { code: Some(EMSGSIZE) },
            Event::Completed,
        ],
    );
    assert_eq!(
        transport.step(Event::Completed),
        Action::Finish { outcome: Outcome::Unexpected, close: true }
    );
    assert_eq!(
        transport.step(Event::Completed),
        Action::Finish { outcome: Outcome::Unexpected, close: false }
    );
}
