use sec_http3::webtransport::SessionId;
use webtransport_echo_server::dispatch::{
    CloseReason, Connection, ConnectionAction, ConnectionEvent, ErrorLevel, RequestHead,
};
use webtransport_echo_server::session::{
    Arrival, Channel, EchoAction, EchoEvent, EchoOutcome, EchoPhase, EchoTask, ReceiveMode,
    Session, SessionAction, SessionEvent, SessionState, StopReason, StreamKind,
};

fn id(n: u64) -> SessionId {
    SessionId::try_from(n).unwrap()
}

fn in_state(state: SessionState) -> Session {
    Session { id: id(4), state }
}

fn datagram(payload: &[u8]) -> SessionEvent {
    SessionEvent::Arrived(Arrival::Datagram(payload.to_vec()))
}

/// Runs an echo task over the events and collects what it asks for,
/// the first request included.
fn run_echo(kind: StreamKind, session: SessionId, events: Vec<EchoEvent>) -> (EchoTask, Vec<EchoAction>) {
    let mut task = EchoTask::new(kind, session);
    let mut actions = vec![task.start()];
    for event in events {
        let (next, action) = task.step(event);
        task = next;
        actions.push(action);
    }
    (task, actions)
}

#[test]
fn new_session_is_active() {
    let s = Session::new(id(0));
    assert_eq!(s.state, SessionState::Active);
    assert_eq!(s.id, id(0));
    assert!(s.should_run());
    assert!(!s.is_terminated());
}

#[test]
fn datagram_hi_is_echoed() {
    let (s, action) = Session::new(id(0)).step(datagram(&[0x68, 0x69]));
    assert_eq!(action, SessionAction::SendDatagram(vec![0x68, 0x69]));
    assert_eq!(s, Session::new(id(0)));
    let (s, action) = s.step(SessionEvent::DatagramSent(true));
    assert_eq!(action, SessionAction::Wait);
    assert!(s.should_run());
}

#[test]
fn datagrams_are_echoed_unchanged() {
    let payloads: Vec<Vec<u8>> = vec![
        Vec::new(),
        vec![0],
        vec![0xff; 1200],
        (0..=255u8).collect(),
        b"hi".to_vec(),
    ];
    let mut s = Session::new(id(8));
    for payload in payloads {
        let (next, action) = s.step(SessionEvent::Arrived(Arrival::Datagram(payload.clone())));
        assert_eq!(action, SessionAction::SendDatagram(payload));
        s = next;
    }
    assert!(s.should_run());
}

#[test]
fn datagrams_are_echoed_in_order() {
    let mut s = Session::new(id(0));
    let mut sent = Vec::new();
    for n in 0..5u8 {
        let (next, action) = s.step(datagram(&[n]));
        if let SessionAction::SendDatagram(p) = action {
            sent.push(p);
        }
        let (next, _) = next.step(SessionEvent::DatagramSent(true));
        s = next;
    }
    assert_eq!(sent, vec![vec![0], vec![1], vec![2], vec![3], vec![4]]);
}

#[test]
fn failed_send_stops_the_loop() {
    let (s, _) = Session::new(id(0)).step(datagram(b"x"));
    let (s, action) = s.step(SessionEvent::DatagramSent(false));
    assert_eq!(action, SessionAction::Drain(StopReason::SendFailed));
    assert_eq!(s.state, SessionState::Draining);
    assert!(!s.should_run());
}

#[test]
fn uni_stream_gets_a_uni_task() {
    let (s, action) = in_state(SessionState::Active).step(SessionEvent::Arrived(Arrival::UniStream));
    assert_eq!(action, SessionAction::Spawn(EchoTask::new(StreamKind::Uni, id(4))));
    assert!(s.should_run());
}

#[test]
fn bidi_stream_gets_a_bidi_task() {
    let (s, action) =
        in_state(SessionState::Active).step(SessionEvent::Arrived(Arrival::BidiStream));
    assert_eq!(
        action,
        SessionAction::Spawn(EchoTask {
            kind: StreamKind::Bidi,
            session: id(4),
            phase: EchoPhase::Receiving,
        })
    );
    assert!(s.should_run());
}

#[test]
fn any_source_that_ends_stops_the_loop() {
    for channel in [Channel::Datagram, Channel::UniStream, Channel::BidiStream] {
        let (s, action) = in_state(SessionState::Active).step(SessionEvent::Exhausted(channel));
        assert_eq!(action, SessionAction::Drain(StopReason::Exhausted(channel)));
        assert_eq!(s.state, SessionState::Draining);
    }
}

#[test]
fn any_source_that_fails_stops_the_loop() {
    for channel in [Channel::Datagram, Channel::UniStream, Channel::BidiStream] {
        let (s, action) = in_state(SessionState::Active).step(SessionEvent::AcceptFailed(channel));
        assert_eq!(action, SessionAction::Drain(StopReason::AcceptFailed(channel)));
        assert_eq!(s.state, SessionState::Draining);
    }
}

#[test]
fn draining_session_terminates_when_tasks_finish() {
    let (s, action) = in_state(SessionState::Draining).step(SessionEvent::TasksFinished);
    assert_eq!(action, SessionAction::Finish);
    assert_eq!(s.state, SessionState::Terminated);
    assert!(s.is_terminated());
}

#[test]
fn active_session_does_not_terminate_on_tasks_finished() {
    let (s, action) = in_state(SessionState::Active).step(SessionEvent::TasksFinished);
    assert_eq!(action, SessionAction::Ignore);
    assert_eq!(s.state, SessionState::Active);
}

#[test]
fn stopped_session_never_runs_again() {
    for start in [SessionState::Draining, SessionState::Terminated] {
        let mut s = in_state(start);
        let events = vec![
            datagram(b"late"),
            SessionEvent::Arrived(Arrival::UniStream),
            SessionEvent::Arrived(Arrival::BidiStream),
            SessionEvent::DatagramSent(true),
            SessionEvent::DatagramSent(false),
            SessionEvent::Exhausted(Channel::Datagram),
            SessionEvent::AcceptFailed(Channel::UniStream),
        ];
        for event in events {
            let (next, action) = s.step(event);
            assert_eq!(action, SessionAction::Ignore);
            assert_eq!(next.state, start);
            assert!(!next.should_run());
            s = next;
        }
    }
}

#[test]
fn terminated_session_does_nothing() {
    let (s, action) = in_state(SessionState::Terminated).step(SessionEvent::TasksFinished);
    assert_eq!(action, SessionAction::Ignore);
    assert_eq!(s.state, SessionState::Terminated);
}

#[test]
fn stop_reasons_tell_failure_from_end() {
    assert!(!StopReason::Exhausted(Channel::Datagram).is_failure());
    assert!(StopReason::AcceptFailed(Channel::Datagram).is_failure());
    assert!(StopReason::SendFailed.is_failure());
}

#[test]
fn uni_stream_is_read_to_its_end() {
    assert_eq!(StreamKind::Uni.receive_mode(), ReceiveMode::ToEnd);
    assert_eq!(EchoTask::new(StreamKind::Uni, id(0)).start(), EchoAction::Receive(ReceiveMode::ToEnd));
}

#[test]
fn bidi_stream_gives_one_chunk() {
    assert_eq!(StreamKind::Bidi.receive_mode(), ReceiveMode::OneChunk);
    assert_eq!(
        EchoTask::new(StreamKind::Bidi, id(0)).start(),
        EchoAction::Receive(ReceiveMode::OneChunk)
    );
}

#[test]
fn uni_stream_abcdef_is_echoed_and_closed() {
    let (task, actions) = run_echo(
        StreamKind::Uni,
        id(4),
        vec![
            EchoEvent::Received(Some(b"abcdef".to_vec())),
            EchoEvent::Opened(true),
            EchoEvent::Written(true),
        ],
    );
    assert_eq!(
        actions,
        vec![
            EchoAction::Receive(ReceiveMode::ToEnd),
            EchoAction::Open(StreamKind::Uni, id(4)),
            EchoAction::Write(b"abcdef".to_vec()),
            EchoAction::Close(EchoOutcome::Echoed),
        ]
    );
    assert_eq!(task.outcome(), Some(EchoOutcome::Echoed));
}

#[test]
fn bidi_stream_ping_is_echoed() {
    let (task, actions) = run_echo(
        StreamKind::Bidi,
        id(4),
        vec![
            EchoEvent::Received(Some(b"ping".to_vec())),
            EchoEvent::Opened(true),
            EchoEvent::Written(true),
        ],
    );
    assert_eq!(
        actions,
        vec![
            EchoAction::Receive(ReceiveMode::OneChunk),
            EchoAction::Open(StreamKind::Bidi, id(4)),
            EchoAction::Write(b"ping".to_vec()),
            EchoAction::Close(EchoOutcome::Echoed),
        ]
    );
    assert_eq!(task.outcome(), Some(EchoOutcome::Echoed));
}

#[test]
fn empty_uni_stream_is_echoed_as_empty() {
    let (_, actions) = run_echo(
        StreamKind::Uni,
        id(0),
        vec![EchoEvent::Received(Some(Vec::new())), EchoEvent::Opened(true)],
    );
    assert_eq!(actions[2], EchoAction::Write(Vec::new()));
}

#[test]
fn echo_answers_on_the_session_of_the_stream() {
    let (_, actions) =
        run_echo(StreamKind::Uni, id(12), vec![EchoEvent::Received(Some(vec![1]))]);
    assert_eq!(actions[1], EchoAction::Open(StreamKind::Uni, id(12)));
    assert_ne!(actions[1], EchoAction::Open(StreamKind::Uni, id(4)));
    assert_ne!(actions[1], EchoAction::Open(StreamKind::Bidi, id(12)));
}

#[test]
fn failed_receive_ends_the_task() {
    let (task, actions) = run_echo(StreamKind::Bidi, id(0), vec![EchoEvent::Received(None)]);
    assert_eq!(actions[1], EchoAction::Close(EchoOutcome::ReceiveFailed));
    assert_eq!(task.outcome(), Some(EchoOutcome::ReceiveFailed));
}

#[test]
fn failed_open_ends_the_task() {
    let (task, actions) = run_echo(
        StreamKind::Uni,
        id(0),
        vec![EchoEvent::Received(Some(vec![1, 2])), EchoEvent::Opened(false)],
    );
    assert_eq!(actions[2], EchoAction::Close(EchoOutcome::OpenFailed));
    assert_eq!(task.outcome(), Some(EchoOutcome::OpenFailed));
}

#[test]
fn failed_write_ends_the_task() {
    let (task, actions) = run_echo(
        StreamKind::Uni,
        id(0),
        vec![
            EchoEvent::Received(Some(vec![1, 2])),
            EchoEvent::Opened(true),
            EchoEvent::Written(false),
        ],
    );
    assert_eq!(actions[3], EchoAction::Close(EchoOutcome::WriteFailed));
    assert_eq!(task.outcome(), Some(EchoOutcome::WriteFailed));
}

#[test]
fn running_task_has_no_outcome() {
    let task = EchoTask::new(StreamKind::Uni, id(0));
    assert_eq!(task.outcome(), None);
    let (task, _) = task.step(EchoEvent::Received(Some(vec![1])));
    assert_eq!(task.outcome(), None);
    assert_eq!(task.phase, EchoPhase::Opening(vec![1]));
    let (task, _) = task.step(EchoEvent::Opened(true));
    assert_eq!(task.outcome(), None);
    assert_eq!(task.phase, EchoPhase::Writing);
}

#[test]
fn finished_task_ignores_everything() {
    let (mut task, _) = run_echo(StreamKind::Uni, id(0), vec![EchoEvent::Received(None)]);
    let events = vec![
        EchoEvent::Received(Some(vec![1])),
        EchoEvent::Opened(true),
        EchoEvent::Written(true),
    ];
    for event in events {
        let (next, action) = task.step(event);
        assert_eq!(action, EchoAction::Ignore);
        assert_eq!(next.outcome(), Some(EchoOutcome::ReceiveFailed));
        task = next;
    }
}

#[test]
fn task_events_out_of_turn_are_ignored() {
    let (task, action) = EchoTask::new(StreamKind::Uni, id(0)).step(EchoEvent::Opened(true));
    assert_eq!(action, EchoAction::Ignore);
    assert_eq!(task, EchoTask::new(StreamKind::Uni, id(0)));
    let (task, _) = task.step(EchoEvent::Received(Some(vec![7])));
    let (task, action) = task.step(EchoEvent::Received(Some(vec![8])));
    assert_eq!(action, EchoAction::Ignore);
    let (_, action) = task.step(EchoEvent::Opened(true));
    assert_eq!(action, EchoAction::Write(vec![7]));
}

#[test]
fn a_failed_stream_task_leaves_the_session_running() {
    let s = Session::new(id(0));
    let (s, action) = s.step(SessionEvent::Arrived(Arrival::UniStream));
    let task = match action {
        SessionAction::Spawn(task) => task,
        other => panic!("unexpected {:?}", other),
    };
    let (task, _) = task.step(EchoEvent::Received(None));
    assert_eq!(task.outcome(), Some(EchoOutcome::ReceiveFailed));
    let (s, action) = s.step(datagram(b"hi"));
    assert_eq!(action, SessionAction::SendDatagram(b"hi".to_vec()));
    assert!(s.should_run());
}

#[test]
fn second_client_echoes_after_the_first_one_crashed() {
    let upgrade = || ConnectionEvent::Request(RequestHead {
        method: "CONNECT".to_string(),
        protocol: Some("webtransport".to_string()),
    });
    let open = |n: u64| {
        let (c, _) = Connection::new().step(ConnectionEvent::HandshakeDone(true));
        let (c, _) = c.step(ConnectionEvent::Http3Ready(true));
        let (c, _) = c.step(upgrade());
        let (c, action) = c.step(ConnectionEvent::Upgraded(Some(id(n))));
        match action {
            ConnectionAction::RunSession(session) => (c, session),
            other => panic!("unexpected {:?}", other),
        }
    };
    let (a, session_a) = open(0);
    let (b, session_b) = open(4);

    let (session_a, action) = session_a.step(SessionEvent::AcceptFailed(Channel::Datagram));
    assert_eq!(action, SessionAction::Drain(StopReason::AcceptFailed(Channel::Datagram)));
    let (session_a, _) = session_a.step(SessionEvent::TasksFinished);
    assert!(session_a.is_terminated());
    let (a, action) = a.step(ConnectionEvent::SessionReturned(false));
    assert_eq!(action, ConnectionAction::Close(CloseReason::SessionFailed));
    assert!(a.is_closed());

    assert!(!b.is_closed());
    let (session_b, action) = session_b.step(datagram(b"still here"));
    assert_eq!(action, SessionAction::SendDatagram(b"still here".to_vec()));
    assert!(session_b.should_run());
    let (b, action) = b.step(ConnectionEvent::AcceptFailed(ErrorLevel::ConnectionError));
    assert_eq!(action, ConnectionAction::Ignore);
    assert!(!b.is_closed());
}
