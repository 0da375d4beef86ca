//! The dispatcher of one HTTP/3 connection.
//!
//! A connection completes its QUIC handshake, is set up for HTTP/3 with
//! the WebTransport extensions, and then accepts requests. A request is
//! either the extended CONNECT that asks for WebTransport, which turns
//! the connection over to one session, or anything else, which is passed
//! over. The caller does the waiting and reports what came;
//! `Connection::step` says what to do next.

use crate::config::{standard_http3, Http3Settings};
use crate::session::{Session, SessionState};
use sec_http3::webtransport::SessionId;
use vstd::prelude::*;

verus! {

/// What the dispatcher reads of a request.
#[derive(Debug, Clone, PartialEq, Eq)]
pub struct RequestHead {
    /// The method token, such as `GET` or `CONNECT`.
    pub method: String,
    /// The value of the `:protocol` pseudo-header, where the request has one.
    pub protocol: Option<String>,
}

/// What a request is to the dispatcher.
#[derive(Clone, Copy, Debug, PartialEq, Eq, Structural)]
pub enum RequestClass {
    /// An extended CONNECT for the WebTransport protocol.
    WebTransportUpgrade,
    /// Any other request.
    Plain,
}

/// How far an error of the HTTP/3 layer reaches.
#[derive(Clone, Copy, Debug, PartialEq, Eq, Structural)]
pub enum ErrorLevel {
    /// The whole connection is lost.
    ConnectionError,
    /// One request stream is lost; the connection lives on.
    StreamError,
}

/// Where a connection is in its life.
#[derive(Clone, Copy, Debug, PartialEq, Eq, Structural)]
pub enum ConnectionState {
    /// The QUIC handshake is under way.
    Handshaking,
    /// The HTTP/3 connection is being set up.
    Negotiating,
    /// Requests are being accepted.
    Accepting,
    /// A WebTransport upgrade is being answered.
    UpgradingWebTransport,
    /// The connection belongs to its session.
    InSession,
    /// The connection is over.
    Closed,
}

/// Why a connection was closed.
#[derive(Clone, Copy, Debug, PartialEq, Eq, Structural)]
pub enum CloseReason {
    /// The QUIC handshake failed.
    HandshakeFailed,
    /// The HTTP/3 connection could not be set up.
    Http3SetupFailed,
    /// The peer will send no more requests.
    RequestsEnded,
    /// Accepting a request failed in a way that the connection does not
    /// survive.
    ConnectionError,
    /// The WebTransport upgrade failed.
    UpgradeFailed,
    /// The session ran and came to its end.
    SessionEnded,
    /// The session loop itself broke down.
    SessionFailed,
}

/// What happened while the dispatcher was waiting.
#[derive(Debug, PartialEq, Eq)]
pub enum ConnectionEvent {
    /// The QUIC handshake completed (`true`) or failed.
    HandshakeDone(bool),
    /// The HTTP/3 connection was set up (`true`) or not.
    Http3Ready(bool),
    /// A request came in.
    Request(RequestHead),
    /// The peer will send no more requests.
    RequestsEnded,
    /// Accepting a request failed.
    AcceptFailed(ErrorLevel),
    /// The upgrade was answered and the session has this identifier
    /// (`Some`), or the upgrade failed (`None`).
    Upgraded(Option<SessionId>),
    /// The session loop returned, in order (`true`) or not.
    SessionReturned(bool),
}

/// What the caller of a dispatcher does next.
#[derive(Debug, PartialEq, Eq)]
pub enum ConnectionAction {
    /// Set up the HTTP/3 connection with these settings, then report
    /// `Http3Ready`.
    SetUpHttp3(Http3Settings),
    /// Wait for the next request.
    AcceptRequest,
    /// Answer the request at hand as a WebTransport upgrade, then report
    /// `Upgraded`.
    Upgrade,
    /// Run this session to its end, then report `SessionReturned`.
    RunSession(Session),
    /// Drop the connection.
    Close(CloseReason),
    /// The event came at a time when it means nothing: do nothing.
    Ignore,
}

/// One HTTP/3 connection, as the dispatcher sees it.
#[derive(Debug, Clone, PartialEq, Eq)]
pub struct Connection {
    pub state: ConnectionState,
    /// The HTTP/3 settings that the connection is set up with.
    pub settings: Http3Settings,
}

/// Whether a method and a `:protocol` value make a WebTransport upgrade:
/// the method is `CONNECT` and the protocol is `webtransport`.
pub open spec fn is_webtransport_connect(method: Seq<char>, protocol: Option<Seq<char>>) -> bool {
    method == "CONNECT"@ && protocol == Some("webtransport"@)
}

/// The text of the `:protocol` value of a request.
pub open spec fn protocol_of(head: RequestHead) -> Option<Seq<char>> {
    match head.protocol {
        Some(p) => Some(p@),
        None => None,
    }
}

/// What a request is to the dispatcher.
pub open spec fn class_of(head: RequestHead) -> RequestClass {
    if is_webtransport_connect(head.method@, protocol_of(head)) {
        RequestClass::WebTransportUpgrade
    } else {
        RequestClass::Plain
    }
}

/// Whether an event is a request that asks for a WebTransport upgrade.
pub open spec fn asks_for_upgrade(event: ConnectionEvent) -> bool {
    event matches ConnectionEvent::Request(head) && class_of(head)
        == RequestClass::WebTransportUpgrade
}

/// A connection that has just come in.
pub open spec fn fresh_connection() -> Connection {
    Connection { state: ConnectionState::Handshaking, settings: standard_http3() }
}

/// The connection in a given state.
pub open spec fn connection_in(connection: Connection, state: ConnectionState) -> Connection {
    Connection { state, settings: connection.settings }
}

/// The connection closed, and the action that closes it.
pub open spec fn closed_for(connection: Connection, reason: CloseReason) -> (
    Connection,
    ConnectionAction,
) {
    (connection_in(connection, ConnectionState::Closed), ConnectionAction::Close(reason))
}

/// One step of a connection: the connection after the event, and what
/// to do.
///
/// While requests are accepted: a WebTransport upgrade is answered; any
/// other request is passed over and the next one awaited; an error that
/// is confined to a stream is passed over too; the end of the requests
/// and an error of the connection close it. A successful upgrade hands
/// the connection to a new session, and when that session returns the
/// connection is closed.
pub open spec fn connection_step(connection: Connection, event: ConnectionEvent) -> (
    Connection,
    ConnectionAction,
) {
    match (connection.state, event) {
        (ConnectionState::Handshaking, ConnectionEvent::HandshakeDone(true)) => (
            connection_in(connection, ConnectionState::Negotiating),
            ConnectionAction::SetUpHttp3(connection.settings),
        ),
        (ConnectionState::Handshaking, ConnectionEvent::HandshakeDone(false)) => closed_for(
            connection,
            CloseReason::HandshakeFailed,
        ),
        (ConnectionState::Negotiating, ConnectionEvent::Http3Ready(true)) => (
            connection_in(connection, ConnectionState::Accepting),
            ConnectionAction::AcceptRequest,
        ),
        (ConnectionState::Negotiating, ConnectionEvent::Http3Ready(false)) => closed_for(
            connection,
            CloseReason::Http3SetupFailed,
        ),
        (ConnectionState::Accepting, ConnectionEvent::Request(head)) => {
            if class_of(head) == RequestClass::WebTransportUpgrade {
                (
                    connection_in(connection, ConnectionState::UpgradingWebTransport),
                    ConnectionAction::Upgrade,
                )
            } else {
                (connection, ConnectionAction::AcceptRequest)
            }
        },
        (ConnectionState::Accepting, ConnectionEvent::RequestsEnded) => closed_for(
            connection,
            CloseReason::RequestsEnded,
        ),
        (
            ConnectionState::Accepting,
            ConnectionEvent::AcceptFailed(ErrorLevel::ConnectionError),
        ) => closed_for(connection, CloseReason::ConnectionError),
        (ConnectionState::Accepting, ConnectionEvent::AcceptFailed(ErrorLevel::StreamError)) => (
            connection,
            ConnectionAction::AcceptRequest,
        ),
        (ConnectionState::UpgradingWebTransport, ConnectionEvent::Upgraded(Some(id))) => (
            connection_in(connection, ConnectionState::InSession),
            ConnectionAction::RunSession(Session { id, state: SessionState::Active }),
        ),
        (ConnectionState::UpgradingWebTransport, ConnectionEvent::Upgraded(None)) => closed_for(
            connection,
            CloseReason::UpgradeFailed,
        ),
        (ConnectionState::InSession, ConnectionEvent::SessionReturned(true)) => closed_for(
            connection,
            CloseReason::SessionEnded,
        ),
        (ConnectionState::InSession, ConnectionEvent::SessionReturned(false)) => closed_for(
            connection,
            CloseReason::SessionFailed,
        ),
        _ => (connection, ConnectionAction::Ignore),
    }
}

/// The connection after a run of events.
pub open spec fn connection_after(connection: Connection, events: Seq<ConnectionEvent>) -> Connection
    decreases events.len(),
{
    if events.len() == 0 {
        connection
    } else {
        connection_after(connection_step(connection, events[0]).0, events.drop_first())
    }
}

/// How many sessions a connection is asked to run over a run of events.
pub open spec fn sessions_started(connection: Connection, events: Seq<ConnectionEvent>) -> nat
    decreases events.len(),
{
    if events.len() == 0 {
        0
    } else {
        let (next, action) = connection_step(connection, events[0]);
        let here: nat = if action is RunSession {
            1
        } else {
            0
        };
        here + sessions_started(next, events.drop_first())
    }
}

impl CloseReason {
    /// Whether the connection was lost to a failure, as opposed to
    /// having come to its end.
    pub open spec fn is_failure_spec(self) -> bool {
        !(self is RequestsEnded || self is SessionEnded)
    }

    /// Whether the connection was lost to a failure, as opposed to
    /// having come to its end.
    pub fn is_failure(&self) -> (b: bool)
        ensures
            b == self.is_failure_spec(),
    {
        match self {
            CloseReason::RequestsEnded => false,
            CloseReason::SessionEnded => false,
            _ => true,
        }
    }
}

impl RequestHead {
    /// Classifies the request: an upgrade exactly where the method is
    /// `CONNECT` and the `:protocol` value is `webtransport`.
    pub fn classify(&self) -> (class: RequestClass)
        ensures
            class == class_of(*self),
    {
        let connect = "CONNECT".to_owned();
        if self.method == connect {
            match &self.protocol {
                Some(protocol) => {
                    let webtransport = "webtransport".to_owned();
                    if *protocol == webtransport {
                        RequestClass::WebTransportUpgrade
                    } else {
                        RequestClass::Plain
                    }
                },
                None => RequestClass::Plain,
            }
        } else {
            RequestClass::Plain
        }
    }
}

impl Connection {
    /// The dispatcher for a connection that has just come in.
    pub fn new() -> (connection: Connection)
        ensures
            connection == fresh_connection(),
    {
        Connection { state: ConnectionState::Handshaking, settings: Http3Settings::webtransport() }
    }

    /// Whether the connection is over.
    pub fn is_closed(&self) -> (closed: bool)
        ensures
            closed == (self.state == ConnectionState::Closed),
    {
        match self.state {
            ConnectionState::Closed => true,
            _ => false,
        }
    }

    /// Takes one event and says what to do next.
    pub fn step(self, event: ConnectionEvent) -> (r: (Connection, ConnectionAction))
        ensures
            r == connection_step(self, event),
    {
        let settings = self.settings;
        match (self.state, event) {
            (ConnectionState::Handshaking, ConnectionEvent::HandshakeDone(done)) => {
                if done {
                    (
                        Connection { state: ConnectionState::Negotiating, settings },
                        ConnectionAction::SetUpHttp3(settings),
                    )
                } else {
                    Connection::close(settings, CloseReason::HandshakeFailed)
                }
            },
            (ConnectionState::Negotiating, ConnectionEvent::Http3Ready(ready)) => {
                if ready {
                    (
                        Connection { state: ConnectionState::Accepting, settings },
                        ConnectionAction::AcceptRequest,
                    )
                } else {
                    Connection::close(settings, CloseReason::Http3SetupFailed)
                }
            },
            (ConnectionState::Accepting, ConnectionEvent::Request(head)) => {
                match head.classify() {
                    RequestClass::WebTransportUpgrade => (
                        Connection { state: ConnectionState::UpgradingWebTransport, settings },
                        ConnectionAction::Upgrade,
                    ),
                    RequestClass::Plain => (
                        Connection { state: ConnectionState::Accepting, settings },
                        ConnectionAction::AcceptRequest,
                    ),
                }
            },
            (ConnectionState::Accepting, ConnectionEvent::RequestsEnded) => Connection::close(
                settings,
                CloseReason::RequestsEnded,
            ),
            (ConnectionState::Accepting, ConnectionEvent::AcceptFailed(level)) => {
                match level {
                    ErrorLevel::ConnectionError => Connection::close(
                        settings,
                        CloseReason::ConnectionError,
                    ),
                    ErrorLevel::StreamError => (
                        Connection { state: ConnectionState::Accepting, settings },
                        ConnectionAction::AcceptRequest,
                    ),
                }
            },
            (ConnectionState::UpgradingWebTransport, ConnectionEvent::Upgraded(session)) => {
                match session {
                    Some(id) => (
                        Connection { state: ConnectionState::InSession, settings },
                        ConnectionAction::RunSession(Session::new(id)),
                    ),
                    None => Connection::close(settings, CloseReason::UpgradeFailed),
                }
            },
            (ConnectionState::InSession, ConnectionEvent::SessionReturned(in_order)) => {
                if in_order {
                    Connection::close(settings, CloseReason::SessionEnded)
                } else {
                    Connection::close(settings, CloseReason::SessionFailed)
                }
            },
            (state, _) => (Connection { state, settings }, ConnectionAction::Ignore),
        }
    }

    fn close(settings: Http3Settings, reason: CloseReason) -> (r: (Connection, ConnectionAction))
        ensures
            r == (
                Connection { state: ConnectionState::Closed, settings },
                ConnectionAction::Close(reason),
            ),
    {
        (Connection { state: ConnectionState::Closed, settings }, ConnectionAction::Close(reason))
    }
}

/// Upgrade strictness, one step: a request that is not a `CONNECT` for
/// `webtransport` never moves a connection towards a session. Where
/// requests are accepted it is passed over and the next one awaited.
pub proof fn lemma_plain_request_is_passed_over(connection: Connection, head: RequestHead)
    requires
        !is_webtransport_connect(head.method@, protocol_of(head)),
    ensures
        connection_step(connection, ConnectionEvent::Request(head)).0 == connection,
        connection.state == ConnectionState::Accepting ==> connection_step(
            connection,
            ConnectionEvent::Request(head),
        ).1 == ConnectionAction::AcceptRequest,
        !(connection_step(connection, ConnectionEvent::Request(head)).1 is Upgrade),
        !(connection_step(connection, ConnectionEvent::Request(head)).1 is RunSession),
{
}

/// A request whose method is not `CONNECT` is no upgrade, whatever its
/// `:protocol` value; nor is a `CONNECT` whose `:protocol` value is
/// missing or is not `webtransport`.
pub proof fn lemma_upgrade_needs_connect_and_protocol(head: RequestHead)
    ensures
        head.method@ != "CONNECT"@ ==> class_of(head) == RequestClass::Plain,
        head.protocol is None ==> class_of(head) == RequestClass::Plain,
        protocol_of(head) != Some("webtransport"@) ==> class_of(head) == RequestClass::Plain,
        class_of(head) == RequestClass::WebTransportUpgrade <==> head.method@ == "CONNECT"@
            && protocol_of(head) == Some("webtransport"@),
{
}

/// Whether a connection is on its way into a session, or in one.
pub open spec fn heading_for_session(connection: Connection) -> bool {
    connection.state == ConnectionState::UpgradingWebTransport || connection.state
        == ConnectionState::InSession
}

/// Upgrade strictness: over a run of events of which none is a
/// `CONNECT` for `webtransport`, a connection that is not yet on its way
/// into a session never gets there, and no session is started.
pub proof fn lemma_no_session_without_upgrade_request(
    connection: Connection,
    events: Seq<ConnectionEvent>,
)
    requires
        !heading_for_session(connection),
        forall|i: int| 0 <= i < events.len() ==> !asks_for_upgrade(#[trigger] events[i]),
    ensures
        !heading_for_session(connection_after(connection, events)),
        sessions_started(connection, events) == 0,
    decreases events.len(),
{
    if events.len() > 0 {
        let next = connection_step(connection, events[0]).0;
        let rest = events.drop_first();
        assert(!asks_for_upgrade(events[0]));
        assert forall|i: int| 0 <= i < rest.len() implies !asks_for_upgrade(#[trigger] rest[i]) by {
            assert(rest[i] == events[i + 1]);
        }
        lemma_no_session_without_upgrade_request(next, rest);
    }
}

/// Once a connection is in its session or closed, no session is started
/// on it any more.
pub proof fn lemma_no_second_session(connection: Connection, events: Seq<ConnectionEvent>)
    requires
        connection.state == ConnectionState::InSession || connection.state
            == ConnectionState::Closed,
    ensures
        sessions_started(connection, events) == 0,
    decreases events.len(),
{
    if events.len() > 0 {
        lemma_no_second_session(connection_step(connection, events[0]).0, events.drop_first());
    }
}

/// One session for each connection: over any run of events, a
/// connection is asked to run a session at most once.
pub proof fn lemma_at_most_one_session(connection: Connection, events: Seq<ConnectionEvent>)
    ensures
        sessions_started(connection, events) <= 1,
    decreases events.len(),
{
    if events.len() > 0 {
        let (next, action) = connection_step(connection, events[0]);
        if action is RunSession {
            lemma_no_second_session(next, events.drop_first());
        } else {
            lemma_at_most_one_session(next, events.drop_first());
        }
    }
}

/// A closed connection stays closed, whatever events follow.
pub proof fn lemma_closed_is_final(connection: Connection, events: Seq<ConnectionEvent>)
    requires
        connection.state == ConnectionState::Closed,
    ensures
        connection_after(connection, events) == connection,
    decreases events.len(),
{
    if events.len() > 0 {
        lemma_closed_is_final(connection_step(connection, events[0]).0, events.drop_first());
    }
}

/// Error levels: while requests are accepted, an error of the connection
/// closes it, and an error of a stream leaves it accepting.
pub proof fn lemma_error_levels(connection: Connection, level: ErrorLevel)
    requires
        connection.state == ConnectionState::Accepting,
    ensures
        connection_step(connection, ConnectionEvent::AcceptFailed(level)).0.state == (match level {
            ErrorLevel::ConnectionError => ConnectionState::Closed,
            ErrorLevel::StreamError => ConnectionState::Accepting,
        }),
{
}

/// A session is started only by a successful upgrade, and the session
/// started is active and has the identifier that the upgrade reported.
pub proof fn lemma_session_comes_from_upgrade(connection: Connection, event: ConnectionEvent)
    requires
        connection_step(connection, event).1 is RunSession,
    ensures
        connection.state == ConnectionState::UpgradingWebTransport,
        event matches ConnectionEvent::Upgraded(Some(id)) && connection_step(connection, event).1
            == ConnectionAction::RunSession(Session { id, state: SessionState::Active }),
        connection_step(connection, event).0.state == ConnectionState::InSession,
{
}

/// The dispatchers of an endpoint after an event was delivered to one
/// of its connections: that one takes its step, each on its own.
pub open spec fn deliver(
    connections: Seq<Connection>,
    to: int,
    event: ConnectionEvent,
) -> Seq<Connection> {
    connections.update(to, connection_step(connections[to], event).0)
}

/// Isolation: whatever is delivered to one connection, a fault
/// included, every other connection of the endpoint is left as it was.
pub proof fn lemma_fault_is_confined(
    connections: Seq<Connection>,
    to: int,
    event: ConnectionEvent,
    other: int,
)
    requires
        0 <= to < connections.len(),
        0 <= other < connections.len(),
        other != to,
    ensures
        deliver(connections, to, event).len() == connections.len(),
        deliver(connections, to, event)[other] == connections[other],
{
}

} // verus!
