//! The echo loop of one WebTransport session, and the echo of one stream.
//!
//! A session waits on three sources at once: datagrams, unidirectional
//! streams and bidirectional streams. The caller does the waiting and
//! reports what a source yielded; `Session::step` says what to do next.
//! Each accepted stream is echoed by a task of its own, an `EchoTask`,
//! which is driven in the same way.

use sec_http3::webtransport::SessionId;
use vstd::prelude::*;

verus! {

/// `sec_http3::webtransport::SessionId`, the identifier of a session,
/// carried through as an opaque value.
#[verifier::external_type_specification]
#[verifier::external_body]
pub struct ExSessionId(sec_http3::webtransport::SessionId);

/// Where a session is in its life.
#[derive(Clone, Copy, Debug, PartialEq, Eq, Structural)]
pub enum SessionState {
    /// The loop runs and serves all three sources.
    Active,
    /// The loop has stopped; stream tasks may still be running.
    Draining,
    /// The loop has stopped and every stream task is done.
    Terminated,
}

/// One of the three sources that a session waits on.
#[derive(Clone, Copy, Debug, PartialEq, Eq, Structural)]
pub enum Channel {
    Datagram,
    UniStream,
    BidiStream,
}

/// The direction of a stream.
#[derive(Clone, Copy, Debug, PartialEq, Eq, Structural)]
pub enum StreamKind {
    /// One way, from the peer that opened it.
    Uni,
    /// Both ways.
    Bidi,
}

/// What a source handed over.
#[derive(Debug, Clone, PartialEq, Eq)]
pub enum Arrival {
    /// A datagram with its payload.
    Datagram(Vec<u8>),
    /// A new unidirectional stream from the client.
    UniStream,
    /// A new bidirectional stream from the client.
    BidiStream,
}

/// What happened while the session loop was waiting.
#[derive(Debug, Clone, PartialEq, Eq)]
pub enum SessionEvent {
    /// A source yielded an item.
    Arrived(Arrival),
    /// A source reported that nothing more will come.
    Exhausted(Channel),
    /// A source failed.
    AcceptFailed(Channel),
    /// The datagram handed out for sending was sent (`true`) or not.
    DatagramSent(bool),
    /// Every stream task that the session spawned has completed.
    TasksFinished,
}

/// Why a session loop stopped.
#[derive(Clone, Copy, Debug, PartialEq, Eq, Structural)]
pub enum StopReason {
    /// A source reported that nothing more will come.
    Exhausted(Channel),
    /// A source failed.
    AcceptFailed(Channel),
    /// An echo datagram could not be sent.
    SendFailed,
}

/// What the caller of a session does next.
#[derive(Debug, PartialEq, Eq)]
pub enum SessionAction {
    /// Wait on the three sources again.
    Wait,
    /// Send this payload as a datagram on the session, then report
    /// `DatagramSent`.
    SendDatagram(Vec<u8>),
    /// Echo the stream just accepted by driving the `EchoTask` given
    /// here, apart from the loop, and wait on the three sources again.
    Spawn(EchoTask),
    /// Leave the loop, wait for the stream tasks still running, then
    /// report `TasksFinished`.
    Drain(StopReason),
    /// The session is over.
    Finish,
    /// The event came at a time when it means nothing: do nothing.
    Ignore,
}

/// One WebTransport session.
#[derive(Debug, PartialEq, Eq)]
pub struct Session {
    /// The identifier that the upgrade assigned.
    pub id: SessionId,
    pub state: SessionState,
}

/// How an echo task takes in what it echoes.
#[derive(Clone, Copy, Debug, PartialEq, Eq, Structural)]
pub enum ReceiveMode {
    /// Read the stream to its end.
    ToEnd,
    /// Receive one chunk of data.
    OneChunk,
}

/// How the echo of one stream ended.
#[derive(Clone, Copy, Debug, PartialEq, Eq, Structural)]
pub enum EchoOutcome {
    /// The payload was written to the new stream.
    Echoed,
    /// The inbound stream could not be read, or held no chunk.
    ReceiveFailed,
    /// No new stream could be opened.
    OpenFailed,
    /// The payload could not be written.
    WriteFailed,
}

/// How far the echo of one stream has come.
#[derive(Debug, Clone, PartialEq, Eq)]
pub enum EchoPhase {
    /// The inbound data is being received.
    Receiving,
    /// A new stream is being opened for the payload held here.
    Opening(Vec<u8>),
    /// The payload is being written.
    Writing,
    /// The task is over.
    Done(EchoOutcome),
}

/// What happened while an echo task was waiting.
#[derive(Debug, Clone, PartialEq, Eq)]
pub enum EchoEvent {
    /// The inbound data came in (`Some`), or receiving failed (`None`).
    Received(Option<Vec<u8>>),
    /// The new stream was opened (`true`) or not.
    Opened(bool),
    /// The payload was written (`true`) or not.
    Written(bool),
}

/// What the caller of an echo task does next.
#[derive(Debug, PartialEq, Eq)]
pub enum EchoAction {
    /// Take in the inbound data, then report `Received`.
    Receive(ReceiveMode),
    /// Open a new stream of this kind on this session, then report
    /// `Opened`.
    Open(StreamKind, SessionId),
    /// Write this payload to the new stream, then report `Written`.
    Write(Vec<u8>),
    /// Close the streams; the task is over.
    Close(EchoOutcome),
    /// The event came at a time when it means nothing: do nothing.
    Ignore,
}

/// The echo of one accepted stream.
#[derive(Debug, PartialEq, Eq)]
pub struct EchoTask {
    /// The kind of the accepted stream, and of the stream that answers it.
    pub kind: StreamKind,
    /// The session that the stream belongs to.
    pub session: SessionId,
    pub phase: EchoPhase,
}

/// The kind of stream that arrives on a channel, if streams arrive there.
pub open spec fn stream_kind_of(channel: Channel) -> Option<StreamKind> {
    match channel {
        Channel::Datagram => None,
        Channel::UniStream => Some(StreamKind::Uni),
        Channel::BidiStream => Some(StreamKind::Bidi),
    }
}

/// How a stream of a given kind is taken in: a unidirectional stream to
/// its end, a bidirectional stream for its first chunk.
pub open spec fn receive_mode_of(kind: StreamKind) -> ReceiveMode {
    match kind {
        StreamKind::Uni => ReceiveMode::ToEnd,
        StreamKind::Bidi => ReceiveMode::OneChunk,
    }
}

/// A task that has not started yet.
pub open spec fn fresh_task(kind: StreamKind, session: SessionId) -> EchoTask {
    EchoTask { kind, session, phase: EchoPhase::Receiving }
}

/// The session in a given state.
pub open spec fn session_in(session: Session, state: SessionState) -> Session {
    Session { id: session.id, state }
}

/// The task in a given phase.
pub open spec fn task_in(task: EchoTask, phase: EchoPhase) -> EchoTask {
    EchoTask { kind: task.kind, session: task.session, phase }
}

/// One step of a session: the session after the event, and what to do.
///
/// While the session is active, a datagram is sent back as it came, a
/// stream gets an echo task of its own kind, and any source that ends or
/// fails stops the loop, as does a datagram that cannot be sent. A
/// draining session only waits for its tasks. A terminated session does
/// nothing.
pub open spec fn session_step(session: Session, event: SessionEvent) -> (Session, SessionAction) {
    match session.state {
        SessionState::Active => match event {
            SessionEvent::Arrived(Arrival::Datagram(payload)) => (
                session,
                SessionAction::SendDatagram(payload),
            ),
            SessionEvent::Arrived(Arrival::UniStream) => (
                session,
                SessionAction::Spawn(fresh_task(StreamKind::Uni, session.id)),
            ),
            SessionEvent::Arrived(Arrival::BidiStream) => (
                session,
                SessionAction::Spawn(fresh_task(StreamKind::Bidi, session.id)),
            ),
            SessionEvent::Exhausted(channel) => (
                session_in(session, SessionState::Draining),
                SessionAction::Drain(StopReason::Exhausted(channel)),
            ),
            SessionEvent::AcceptFailed(channel) => (
                session_in(session, SessionState::Draining),
                SessionAction::Drain(StopReason::AcceptFailed(channel)),
            ),
            SessionEvent::DatagramSent(true) => (session, SessionAction::Wait),
            SessionEvent::DatagramSent(false) => (
                session_in(session, SessionState::Draining),
                SessionAction::Drain(StopReason::SendFailed),
            ),
            SessionEvent::TasksFinished => (session, SessionAction::Ignore),
        },
        SessionState::Draining => match event {
            SessionEvent::TasksFinished => (
                session_in(session, SessionState::Terminated),
                SessionAction::Finish,
            ),
            _ => (session, SessionAction::Ignore),
        },
        SessionState::Terminated => (session, SessionAction::Ignore),
    }
}

/// One step of an echo task: the task after the event, and what to do.
///
/// What was received is written to a new stream of the same kind on the
/// same session, unchanged; the first failure ends the task.
pub open spec fn echo_step(task: EchoTask, event: EchoEvent) -> (EchoTask, EchoAction) {
    match (task.phase, event) {
        (EchoPhase::Receiving, EchoEvent::Received(Some(payload))) => (
            task_in(task, EchoPhase::Opening(payload)),
            EchoAction::Open(task.kind, task.session),
        ),
        (EchoPhase::Receiving, EchoEvent::Received(None)) => (
            task_in(task, EchoPhase::Done(EchoOutcome::ReceiveFailed)),
            EchoAction::Close(EchoOutcome::ReceiveFailed),
        ),
        (EchoPhase::Opening(payload), EchoEvent::Opened(true)) => (
            task_in(task, EchoPhase::Writing),
            EchoAction::Write(payload),
        ),
        (EchoPhase::Opening(_), EchoEvent::Opened(false)) => (
            task_in(task, EchoPhase::Done(EchoOutcome::OpenFailed)),
            EchoAction::Close(EchoOutcome::OpenFailed),
        ),
        (EchoPhase::Writing, EchoEvent::Written(true)) => (
            task_in(task, EchoPhase::Done(EchoOutcome::Echoed)),
            EchoAction::Close(EchoOutcome::Echoed),
        ),
        (EchoPhase::Writing, EchoEvent::Written(false)) => (
            task_in(task, EchoPhase::Done(EchoOutcome::WriteFailed)),
            EchoAction::Close(EchoOutcome::WriteFailed),
        ),
        _ => (task, EchoAction::Ignore),
    }
}

/// The session after a run of events.
pub open spec fn session_after(session: Session, events: Seq<SessionEvent>) -> Session
    decreases events.len(),
{
    if events.len() == 0 {
        session
    } else {
        session_after(session_step(session, events[0]).0, events.drop_first())
    }
}

/// The task after a run of events.
pub open spec fn echo_after(task: EchoTask, events: Seq<EchoEvent>) -> EchoTask
    decreases events.len(),
{
    if events.len() == 0 {
        task
    } else {
        echo_after(echo_step(task, events[0]).0, events.drop_first())
    }
}

/// The actions that a task asks for over a run of events, one for each
/// event.
pub open spec fn echo_actions(task: EchoTask, events: Seq<EchoEvent>) -> Seq<EchoAction>
    decreases events.len(),
{
    if events.len() == 0 {
        Seq::empty()
    } else {
        seq![echo_step(task, events[0]).1] + echo_actions(
            echo_step(task, events[0]).0,
            events.drop_first(),
        )
    }
}

/// The payloads that a session asks to send as datagrams over a run of
/// events, in the order in which it asks.
pub open spec fn datagrams_sent(session: Session, events: Seq<SessionEvent>) -> Seq<Vec<u8>>
    decreases events.len(),
{
    if events.len() == 0 {
        Seq::empty()
    } else {
        let (next, action) = session_step(session, events[0]);
        let rest = datagrams_sent(next, events.drop_first());
        match action {
            SessionAction::SendDatagram(payload) => seq![payload] + rest,
            _ => rest,
        }
    }
}

/// The payloads of the datagrams that arrive over a run of events, in
/// the order in which they arrive.
pub open spec fn datagrams_arrived(events: Seq<SessionEvent>) -> Seq<Vec<u8>>
    decreases events.len(),
{
    if events.len() == 0 {
        Seq::empty()
    } else {
        let rest = datagrams_arrived(events.drop_first());
        match events[0] {
            SessionEvent::Arrived(Arrival::Datagram(payload)) => seq![payload] + rest,
            _ => rest,
        }
    }
}

/// Whether an event stops the loop of an active session.
pub open spec fn stops_the_loop(event: SessionEvent) -> bool {
    event is Exhausted || event is AcceptFailed || event == SessionEvent::DatagramSent(false)
}

/// How many times a task asks to write over a run of events.
pub open spec fn writes_asked(task: EchoTask, events: Seq<EchoEvent>) -> nat
    decreases events.len(),
{
    if events.len() == 0 {
        0
    } else {
        let (next, action) = echo_step(task, events[0]);
        let here: nat = if action is Write {
            1
        } else {
            0
        };
        here + writes_asked(next, events.drop_first())
    }
}

impl StopReason {
    /// Whether the loop stopped on a failure, as opposed to a source
    /// that simply came to its end.
    pub open spec fn is_failure_spec(self) -> bool {
        !(self is Exhausted)
    }

    /// Whether the loop stopped on a failure, as opposed to a source
    /// that simply came to its end.
    pub fn is_failure(&self) -> (b: bool)
        ensures
            b == self.is_failure_spec(),
    {
        match self {
            StopReason::Exhausted(_) => false,
            _ => true,
        }
    }
}

impl StreamKind {
    /// How a stream of this kind is taken in.
    pub fn receive_mode(&self) -> (mode: ReceiveMode)
        ensures
            mode == receive_mode_of(*self),
    {
        match self {
            StreamKind::Uni => ReceiveMode::ToEnd,
            StreamKind::Bidi => ReceiveMode::OneChunk,
        }
    }
}

impl Session {
    /// The session that a successful upgrade starts: active.
    pub fn new(id: SessionId) -> (session: Session)
        ensures
            session == (Session { id, state: SessionState::Active }),
    {
        Session { id, state: SessionState::Active }
    }

    /// Whether the loop goes on: the flag that is looked at before each
    /// wait. It is set as long as the session is active.
    pub open spec fn running(self) -> bool {
        self.state == SessionState::Active
    }

    /// Whether the loop goes on.
    pub fn should_run(&self) -> (run: bool)
        ensures
            run == self.running(),
    {
        match self.state {
            SessionState::Active => true,
            _ => false,
        }
    }

    /// Whether the session is over.
    pub fn is_terminated(&self) -> (done: bool)
        ensures
            done == (self.state == SessionState::Terminated),
    {
        match self.state {
            SessionState::Terminated => true,
            _ => false,
        }
    }

    /// Takes one event and says what to do next.
    pub fn step(self, event: SessionEvent) -> (r: (Session, SessionAction))
        ensures
            r == session_step(self, event),
    {
        match self.state {
            SessionState::Active => match event {
                SessionEvent::Arrived(Arrival::Datagram(payload)) => (
                    self,
                    SessionAction::SendDatagram(payload),
                ),
                SessionEvent::Arrived(Arrival::UniStream) => {
                    let task = EchoTask::new(StreamKind::Uni, self.id);
                    (self, SessionAction::Spawn(task))
                },
                SessionEvent::Arrived(Arrival::BidiStream) => {
                    let task = EchoTask::new(StreamKind::Bidi, self.id);
                    (self, SessionAction::Spawn(task))
                },
                SessionEvent::Exhausted(channel) => (
                    Session { id: self.id, state: SessionState::Draining },
                    SessionAction::Drain(StopReason::Exhausted(channel)),
                ),
                SessionEvent::AcceptFailed(channel) => (
                    Session { id: self.id, state: SessionState::Draining },
                    SessionAction::Drain(StopReason::AcceptFailed(channel)),
                ),
                SessionEvent::DatagramSent(sent) => {
                    if sent {
                        (self, SessionAction::Wait)
                    } else {
                        (
                            Session { id: self.id, state: SessionState::Draining },
                            SessionAction::Drain(StopReason::SendFailed),
                        )
                    }
                },
                SessionEvent::TasksFinished => (self, SessionAction::Ignore),
            },
            SessionState::Draining => match event {
                SessionEvent::TasksFinished => (
                    Session { id: self.id, state: SessionState::Terminated },
                    SessionAction::Finish,
                ),
                _ => (self, SessionAction::Ignore),
            },
            SessionState::Terminated => (self, SessionAction::Ignore),
        }
    }
}

impl EchoTask {
    /// The task for a stream that was just accepted.
    pub fn new(kind: StreamKind, session: SessionId) -> (task: EchoTask)
        ensures
            task == fresh_task(kind, session),
    {
        EchoTask { kind, session, phase: EchoPhase::Receiving }
    }

    /// What a task that was just created asks for: the inbound data.
    pub fn start(&self) -> (action: EchoAction)
        ensures
            action == EchoAction::Receive(receive_mode_of(self.kind)),
    {
        EchoAction::Receive(self.kind.receive_mode())
    }

    /// How the task ended, once it has.
    pub fn outcome(&self) -> (outcome: Option<EchoOutcome>)
        ensures
            outcome == (match self.phase {
                EchoPhase::Done(o) => Some(o),
                _ => None,
            }),
    {
        match &self.phase {
            EchoPhase::Done(o) => Some(*o),
            _ => None,
        }
    }

    /// Takes one event and says what to do next.
    pub fn step(self, event: EchoEvent) -> (r: (EchoTask, EchoAction))
        ensures
            r == echo_step(self, event),
    {
        let kind = self.kind;
        let session = self.session;
        match (self.phase, event) {
            (EchoPhase::Receiving, EchoEvent::Received(Some(payload))) => (
                EchoTask { kind, session, phase: EchoPhase::Opening(payload) },
                EchoAction::Open(kind, session),
            ),
            (EchoPhase::Receiving, EchoEvent::Received(None)) => (
                EchoTask { kind, session, phase: EchoPhase::Done(EchoOutcome::ReceiveFailed) },
                EchoAction::Close(EchoOutcome::ReceiveFailed),
            ),
            (EchoPhase::Opening(payload), EchoEvent::Opened(true)) => (
                EchoTask { kind, session, phase: EchoPhase::Writing },
                EchoAction::Write(payload),
            ),
            (EchoPhase::Opening(_), EchoEvent::Opened(false)) => (
                EchoTask { kind, session, phase: EchoPhase::Done(EchoOutcome::OpenFailed) },
                EchoAction::Close(EchoOutcome::OpenFailed),
            ),
            (EchoPhase::Writing, EchoEvent::Written(true)) => (
                EchoTask { kind, session, phase: EchoPhase::Done(EchoOutcome::Echoed) },
                EchoAction::Close(EchoOutcome::Echoed),
            ),
            (EchoPhase::Writing, EchoEvent::Written(false)) => (
                EchoTask { kind, session, phase: EchoPhase::Done(EchoOutcome::WriteFailed) },
                EchoAction::Close(EchoOutcome::WriteFailed),
            ),
            (phase, _) => (EchoTask { kind, session, phase }, EchoAction::Ignore),
        }
    }
}

/// Datagram echo: an active session answers a datagram with a datagram
/// that carries the same payload, and stays as it was.
pub proof fn lemma_datagram_echo(session: Session, payload: Vec<u8>)
    requires
        session.running(),
    ensures
        session_step(session, SessionEvent::Arrived(Arrival::Datagram(payload))) == (
            session,
            SessionAction::SendDatagram(payload),
        ),
{
}

/// A datagram that was sent keeps the loop running; one that could not
/// be sent stops it.
pub proof fn lemma_send_failure_stops_the_loop(session: Session, sent: bool)
    requires
        session.running(),
    ensures
        session_step(session, SessionEvent::DatagramSent(sent)).0.running() == sent,
{
}

/// Same kind, same session: the task that an active session spawns for
/// a stream has the kind of the channel the stream came on and the
/// identifier of the session.
pub proof fn lemma_spawned_task_matches_stream(session: Session, channel: Channel)
    requires
        session.running(),
        channel != Channel::Datagram,
    ensures
        ({
            let arrival = if channel == Channel::UniStream {
                Arrival::UniStream
            } else {
                Arrival::BidiStream
            };
            let (after, action) = session_step(session, SessionEvent::Arrived(arrival));
            &&& after == session
            &&& action matches SessionAction::Spawn(task)
            &&& Some(task.kind) == stream_kind_of(channel)
            &&& task.session == session.id
            &&& task.phase is Receiving
        }),
{
}

/// Termination: a source that ends or fails stops an active session,
/// whichever source it is.
pub proof fn lemma_source_end_stops_the_loop(session: Session, channel: Channel)
    requires
        session.running(),
    ensures
        session_step(session, SessionEvent::Exhausted(channel)).0.state == SessionState::Draining,
        session_step(session, SessionEvent::AcceptFailed(channel)).0.state
            == SessionState::Draining,
{
}

/// A step never changes the identifier of a session.
pub proof fn lemma_step_keeps_session_id(session: Session, event: SessionEvent)
    ensures
        session_step(session, event).0.id == session.id,
{
}

/// The flag is monotonic: a session whose loop has stopped never runs
/// again, whatever events follow.
pub proof fn lemma_stop_is_final(session: Session, events: Seq<SessionEvent>)
    requires
        !session.running(),
    ensures
        !session_after(session, events).running(),
    decreases events.len(),
{
    if events.len() > 0 {
        lemma_stop_is_final(session_step(session, events[0]).0, events.drop_first());
    }
}

/// A terminated session stays terminated, whatever events follow.
pub proof fn lemma_terminated_is_final(session: Session, events: Seq<SessionEvent>)
    requires
        session.state == SessionState::Terminated,
    ensures
        session_after(session, events) == session,
    decreases events.len(),
{
    if events.len() > 0 {
        lemma_terminated_is_final(session_step(session, events[0]).0, events.drop_first());
    }
}

/// A session terminates only when its tasks are reported finished while
/// it is draining: no other step leads to `Terminated`.
pub proof fn lemma_terminates_only_after_drain(session: Session, event: SessionEvent)
    requires
        session.state != SessionState::Terminated,
        session_step(session, event).0.state == SessionState::Terminated,
    ensures
        session.state == SessionState::Draining,
        event is TasksFinished,
        session_step(session, event).1 is Finish,
{
}

/// A step of an echo task changes neither its kind nor its session, and
/// a stream that it asks to open is of its kind, on its session.
pub proof fn lemma_echo_stays_on_its_channel(task: EchoTask, event: EchoEvent)
    ensures
        echo_step(task, event).0.kind == task.kind,
        echo_step(task, event).0.session == task.session,
        echo_step(task, event).1 matches EchoAction::Open(kind, session) ==> kind == task.kind
            && session == task.session,
{
}

/// The echo of a stream, when nothing fails: the task opens a new stream
/// of the same kind on the same session, writes the payload as it was
/// received, and closes.
pub proof fn lemma_stream_echo(kind: StreamKind, session: SessionId, payload: Vec<u8>)
    ensures
        echo_actions(
            fresh_task(kind, session),
            seq![
                EchoEvent::Received(Some(payload)),
                EchoEvent::Opened(true),
                EchoEvent::Written(true),
            ],
        ) == seq![
            EchoAction::Open(kind, session),
            EchoAction::Write(payload),
            EchoAction::Close(EchoOutcome::Echoed),
        ],
{
    let e0 = EchoEvent::Received(Some(payload));
    let e1 = EchoEvent::Opened(true);
    let e2 = EchoEvent::Written(true);
    let events = seq![e0, e1, e2];
    let t0 = fresh_task(kind, session);
    let t1 = echo_step(t0, e0).0;
    let t2 = echo_step(t1, e1).0;
    let t3 = echo_step(t2, e2).0;
    assert(events.drop_first() == seq![e1, e2]);
    assert(seq![e1, e2].drop_first() == seq![e2]);
    assert(seq![e2].drop_first() == Seq::<EchoEvent>::empty());
    assert(echo_actions(t3, Seq::<EchoEvent>::empty()) == Seq::<EchoAction>::empty());
    assert(echo_actions(t2, seq![e2]) == seq![echo_step(t2, e2).1] + Seq::<EchoAction>::empty());
    assert(echo_actions(t1, seq![e1, e2]) == seq![echo_step(t1, e1).1] + echo_actions(
        t2,
        seq![e2],
    ));
    assert(echo_actions(t0, events) == seq![echo_step(t0, e0).1] + echo_actions(
        t1,
        seq![e1, e2],
    ));
}

/// Unidirectional echo: a client stream that carries `payload` is read
/// to its end and answered by a new unidirectional stream on the same
/// session, on which exactly `payload` is written before it is closed.
pub proof fn lemma_uni_stream_echo(session: SessionId, payload: Vec<u8>)
    ensures
        receive_mode_of(StreamKind::Uni) == ReceiveMode::ToEnd,
        echo_actions(
            fresh_task(StreamKind::Uni, session),
            seq![
                EchoEvent::Received(Some(payload)),
                EchoEvent::Opened(true),
                EchoEvent::Written(true),
            ],
        ) == seq![
            EchoAction::Open(StreamKind::Uni, session),
            EchoAction::Write(payload),
            EchoAction::Close(EchoOutcome::Echoed),
        ],
{
    lemma_stream_echo(StreamKind::Uni, session, payload);
}

/// Bidirectional echo: a client stream whose first chunk is `payload` is
/// answered by a new bidirectional stream on the same session, on which
/// exactly `payload` is written.
pub proof fn lemma_bidi_stream_echo(session: SessionId, payload: Vec<u8>)
    ensures
        receive_mode_of(StreamKind::Bidi) == ReceiveMode::OneChunk,
        echo_actions(
            fresh_task(StreamKind::Bidi, session),
            seq![
                EchoEvent::Received(Some(payload)),
                EchoEvent::Opened(true),
                EchoEvent::Written(true),
            ],
        ) == seq![
            EchoAction::Open(StreamKind::Bidi, session),
            EchoAction::Write(payload),
            EchoAction::Close(EchoOutcome::Echoed),
        ],
{
    lemma_stream_echo(StreamKind::Bidi, session, payload);
}

/// A run of events yields one action for each event.
pub proof fn lemma_echo_actions_len(task: EchoTask, events: Seq<EchoEvent>)
    ensures
        echo_actions(task, events).len() == events.len(),
    decreases events.len(),
{
    if events.len() > 0 {
        lemma_echo_actions_len(echo_step(task, events[0]).0, events.drop_first());
    }
}

/// No payload transformation: whatever a task writes, at any point of
/// any run, is a payload that it holds for writing at the start of the
/// run or that was reported to it as received earlier in the run.
pub proof fn lemma_echo_writes_what_arrived(
    task: EchoTask,
    events: Seq<EchoEvent>,
    i: int,
    payload: Vec<u8>,
)
    requires
        0 <= i < events.len(),
        echo_actions(task, events)[i] == EchoAction::Write(payload),
    ensures
        task.phase == EchoPhase::Opening(payload) || exists|j: int|
            0 <= j < i && events[j] == EchoEvent::Received(Some(payload)),
    decreases events.len(),
{
    let next = echo_step(task, events[0]).0;
    let rest = events.drop_first();
    lemma_echo_actions_len(next, rest);
    if i > 0 {
        assert(echo_actions(task, events)[i] == echo_actions(next, rest)[i - 1]);
        lemma_echo_writes_what_arrived(next, rest, i - 1, payload);
        if next.phase == EchoPhase::Opening(payload) {
            if task.phase != EchoPhase::Opening(payload) {
                assert(events[0] == EchoEvent::Received(Some(payload)));
            }
        } else {
            let j = choose|j: int| 0 <= j < i - 1 && rest[j] == EchoEvent::Received(Some(payload));
            assert(events[j + 1] == EchoEvent::Received(Some(payload)));
        }
    }
}

/// A fresh task writes nothing but what was reported to it as received.
pub proof fn lemma_fresh_task_writes_what_arrived(
    kind: StreamKind,
    session: SessionId,
    events: Seq<EchoEvent>,
    i: int,
    payload: Vec<u8>,
)
    requires
        0 <= i < events.len(),
        echo_actions(fresh_task(kind, session), events)[i] == EchoAction::Write(payload),
    ensures
        exists|j: int| 0 <= j < i && events[j] == EchoEvent::Received(Some(payload)),
{
    lemma_echo_writes_what_arrived(fresh_task(kind, session), events, i, payload);
}

/// Once a task is done it stays done and asks for nothing more.
pub proof fn lemma_done_is_final(task: EchoTask, event: EchoEvent)
    requires
        task.phase is Done,
    ensures
        echo_step(task, event) == (task, EchoAction::Ignore),
{
}

/// Datagram echo in order: as long as nothing stops the loop, an active
/// session asks to send exactly the payloads that arrive, one for one
/// and in the order of their arrival.
pub proof fn lemma_datagrams_echoed_in_order(session: Session, events: Seq<SessionEvent>)
    requires
        session.running(),
        forall|i: int| 0 <= i < events.len() ==> !stops_the_loop(#[trigger] events[i]),
    ensures
        datagrams_sent(session, events) == datagrams_arrived(events),
        session_after(session, events) == session,
    decreases events.len(),
{
    if events.len() > 0 {
        let rest = events.drop_first();
        assert(!stops_the_loop(events[0]));
        assert(session_step(session, events[0]).0 == session);
        assert forall|i: int| 0 <= i < rest.len() implies !stops_the_loop(#[trigger] rest[i]) by {
            assert(rest[i] == events[i + 1]);
        }
        lemma_datagrams_echoed_in_order(session, rest);
    }
}

/// A session whose loop has stopped sends no datagram any more.
pub proof fn lemma_stopped_session_sends_nothing(session: Session, events: Seq<SessionEvent>)
    requires
        !session.running(),
    ensures
        datagrams_sent(session, events) == Seq::<Vec<u8>>::empty(),
    decreases events.len(),
{
    if events.len() > 0 {
        lemma_stopped_session_sends_nothing(
            session_step(session, events[0]).0,
            events.drop_first(),
        );
    }
}

/// Once a task is writing or done, it does not ask to write again.
pub proof fn lemma_no_second_write(task: EchoTask, events: Seq<EchoEvent>)
    requires
        task.phase is Writing || task.phase is Done,
    ensures
        writes_asked(task, events) == 0,
    decreases events.len(),
{
    if events.len() > 0 {
        lemma_no_second_write(echo_step(task, events[0]).0, events.drop_first());
    }
}

/// Over any run of events, a task asks to write at most once.
pub proof fn lemma_at_most_one_write(task: EchoTask, events: Seq<EchoEvent>)
    ensures
        writes_asked(task, events) <= 1,
    decreases events.len(),
{
    if events.len() > 0 {
        let (next, action) = echo_step(task, events[0]);
        if action is Write {
            lemma_no_second_write(next, events.drop_first());
        } else {
            lemma_at_most_one_write(next, events.drop_first());
        }
    }
}

} // verus!
