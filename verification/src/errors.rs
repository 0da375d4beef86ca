//! The kinds of error that the server meets, and how far each reaches.

use crate::config::TlsConfigError;
use crate::credentials::CredentialError;
use crate::dispatch::{
    connection_step, CloseReason, Connection, ConnectionAction, ConnectionEvent, ConnectionState,
    ErrorLevel,
};
use crate::session::{
    echo_step, session_step, EchoAction, EchoEvent, EchoOutcome, EchoTask, Session, SessionAction,
    SessionEvent, SessionState, StopReason,
};
use vstd::prelude::*;

verus! {

/// The exit status of a server that shut down in order.
pub const EXIT_SUCCESS: i32 = 0;

/// The exit status of a server that could not start.
pub const EXIT_FAILURE: i32 = 1;

/// A kind of error.
#[derive(Clone, Copy, Debug, PartialEq, Eq, Structural)]
pub enum ErrorKind {
    /// A listen address that does not parse, a path that is missing.
    Config,
    /// A key or certificate file that cannot be read or holds nothing
    /// usable.
    Credential,
    /// TLS parameters that do not go together.
    TlsConfig,
    /// The UDP socket could not be bound.
    Bind,
    /// An error of QUIC or HTTP/3 that a connection does not survive.
    Connection,
    /// A failure of one stream inside a connection that lives on.
    Stream,
    /// A failure inside an established session, on sending a datagram
    /// or on accepting from one of its sources.
    Session,
}

/// How far an error reaches.
#[derive(Clone, Copy, Debug, PartialEq, Eq, Structural)]
pub enum Propagation {
    /// The process exits with a status other than zero. Nothing is
    /// tried again.
    ExitProcess,
    /// The connection is closed. Other connections are not touched.
    EndConnection,
    /// The error stays with the stream it came from. Whatever holds that
    /// stream goes on.
    ConfinedToStream,
    /// The session loop stops.
    EndSession,
}

/// Why the server could not start.
#[derive(Clone, Copy, Debug, PartialEq, Eq, Structural)]
pub enum StartupError {
    /// A listen address did not resolve.
    Config,
    /// The TLS identity could not be loaded.
    Credential(CredentialError),
    /// The TLS configuration could not be built.
    TlsConfig(TlsConfigError),
    /// The UDP socket could not be bound.
    Bind,
}

/// How far an error of a given kind reaches: an error at startup ends
/// the process, an error of a connection ends that connection, an error
/// of a stream stays with the stream, an error of a session ends the
/// session loop.
pub open spec fn propagation_of(kind: ErrorKind) -> Propagation {
    match kind {
        ErrorKind::Config => Propagation::ExitProcess,
        ErrorKind::Credential => Propagation::ExitProcess,
        ErrorKind::TlsConfig => Propagation::ExitProcess,
        ErrorKind::Bind => Propagation::ExitProcess,
        ErrorKind::Connection => Propagation::EndConnection,
        ErrorKind::Stream => Propagation::ConfinedToStream,
        ErrorKind::Session => Propagation::EndSession,
    }
}

/// The kind of a startup error.
pub open spec fn startup_kind_of(error: StartupError) -> ErrorKind {
    match error {
        StartupError::Config => ErrorKind::Config,
        StartupError::Credential(_) => ErrorKind::Credential,
        StartupError::TlsConfig(_) => ErrorKind::TlsConfig,
        StartupError::Bind => ErrorKind::Bind,
    }
}

/// The kind of an error of the HTTP/3 layer, by its level.
pub open spec fn level_kind_of(level: ErrorLevel) -> ErrorKind {
    match level {
        ErrorLevel::ConnectionError => ErrorKind::Connection,
        ErrorLevel::StreamError => ErrorKind::Stream,
    }
}

/// The kind of error behind the closing of a connection, if it was
/// closed for an error.
pub open spec fn close_kind_of(reason: CloseReason) -> Option<ErrorKind> {
    match reason {
        CloseReason::HandshakeFailed => Some(ErrorKind::Connection),
        CloseReason::Http3SetupFailed => Some(ErrorKind::Connection),
        CloseReason::RequestsEnded => None,
        CloseReason::ConnectionError => Some(ErrorKind::Connection),
        CloseReason::UpgradeFailed => Some(ErrorKind::Connection),
        CloseReason::SessionEnded => None,
        CloseReason::SessionFailed => Some(ErrorKind::Session),
    }
}

/// The kind of error behind the stop of a session loop, if it stopped
/// for an error.
pub open spec fn stop_kind_of(reason: StopReason) -> Option<ErrorKind> {
    match reason {
        StopReason::Exhausted(_) => None,
        StopReason::AcceptFailed(_) => Some(ErrorKind::Session),
        StopReason::SendFailed => Some(ErrorKind::Session),
    }
}

/// The kind of error behind the end of an echo task, if it failed.
pub open spec fn echo_kind_of(outcome: EchoOutcome) -> Option<ErrorKind> {
    match outcome {
        EchoOutcome::Echoed => None,
        _ => Some(ErrorKind::Stream),
    }
}

/// The exit status of the process: zero after a shutdown in order,
/// another value after a startup error.
pub open spec fn exit_status_of(error: Option<StartupError>) -> i32 {
    match error {
        None => EXIT_SUCCESS,
        Some(_) => EXIT_FAILURE,
    }
}

impl ErrorKind {
    /// How far an error of this kind reaches.
    pub fn propagation(&self) -> (p: Propagation)
        ensures
            p == propagation_of(*self),
    {
        match self {
            ErrorKind::Config => Propagation::ExitProcess,
            ErrorKind::Credential => Propagation::ExitProcess,
            ErrorKind::TlsConfig => Propagation::ExitProcess,
            ErrorKind::Bind => Propagation::ExitProcess,
            ErrorKind::Connection => Propagation::EndConnection,
            ErrorKind::Stream => Propagation::ConfinedToStream,
            ErrorKind::Session => Propagation::EndSession,
        }
    }
}

impl StartupError {
    /// The kind of the error.
    pub fn kind(&self) -> (kind: ErrorKind)
        ensures
            kind == startup_kind_of(*self),
    {
        match self {
            StartupError::Config => ErrorKind::Config,
            StartupError::Credential(_) => ErrorKind::Credential,
            StartupError::TlsConfig(_) => ErrorKind::TlsConfig,
            StartupError::Bind => ErrorKind::Bind,
        }
    }

    /// The text that describes the error.
    pub open spec fn message_text(self) -> Seq<char> {
        match self {
            StartupError::Config => "listen address is not a valid socket address"@,
            StartupError::Credential(e) => e.message_text(),
            StartupError::TlsConfig(e) => e.message_text(),
            StartupError::Bind => "failed to bind the UDP socket"@,
        }
    }

    /// A line for the log.
    pub fn message(&self) -> (text: String)
        ensures
            text@ == self.message_text(),
    {
        match self {
            StartupError::Config => "listen address is not a valid socket address".to_owned(),
            StartupError::Credential(e) => e.message(),
            StartupError::TlsConfig(e) => e.message(),
            StartupError::Bind => "failed to bind the UDP socket".to_owned(),
        }
    }
}

impl ErrorLevel {
    /// The kind of an error of this level.
    pub fn kind(&self) -> (kind: ErrorKind)
        ensures
            kind == level_kind_of(*self),
    {
        match self {
            ErrorLevel::ConnectionError => ErrorKind::Connection,
            ErrorLevel::StreamError => ErrorKind::Stream,
        }
    }
}

impl CloseReason {
    /// The kind of error that closed the connection, if one did.
    pub fn kind(&self) -> (kind: Option<ErrorKind>)
        ensures
            kind == close_kind_of(*self),
            kind is Some <==> self.is_failure_spec(),
    {
        match self {
            CloseReason::HandshakeFailed => Some(ErrorKind::Connection),
            CloseReason::Http3SetupFailed => Some(ErrorKind::Connection),
            CloseReason::RequestsEnded => None,
            CloseReason::ConnectionError => Some(ErrorKind::Connection),
            CloseReason::UpgradeFailed => Some(ErrorKind::Connection),
            CloseReason::SessionEnded => None,
            CloseReason::SessionFailed => Some(ErrorKind::Session),
        }
    }
}

impl StopReason {
    /// The kind of error that stopped the loop, if one did.
    pub fn kind(&self) -> (kind: Option<ErrorKind>)
        ensures
            kind == stop_kind_of(*self),
            kind is Some <==> self.is_failure_spec(),
    {
        match self {
            StopReason::Exhausted(_) => None,
            StopReason::AcceptFailed(_) => Some(ErrorKind::Session),
            StopReason::SendFailed => Some(ErrorKind::Session),
        }
    }
}

impl EchoOutcome {
    /// The kind of error that ended the task, if it failed.
    pub fn kind(&self) -> (kind: Option<ErrorKind>)
        ensures
            kind == echo_kind_of(*self),
    {
        match self {
            EchoOutcome::Echoed => None,
            _ => Some(ErrorKind::Stream),
        }
    }
}

/// The exit status of the process for the way the endpoint stopped.
pub fn exit_status(error: &Option<StartupError>) -> (status: i32)
    ensures
        status == exit_status_of(*error),
        status == 0 <==> *error is None,
{
    match error {
        None => EXIT_SUCCESS,
        Some(_) => EXIT_FAILURE,
    }
}

/// Every startup error ends the process, with a status other than zero.
pub proof fn lemma_startup_errors_end_the_process(error: StartupError)
    ensures
        propagation_of(startup_kind_of(error)) == Propagation::ExitProcess,
        exit_status_of(Some(error)) != 0,
{
}

/// The dispatcher follows the policy: while requests are accepted, an
/// error closes the connection exactly where errors of its kind end the
/// connection, and is passed over exactly where they stay with the
/// stream.
pub proof fn lemma_dispatcher_follows_policy(connection: Connection, level: ErrorLevel)
    requires
        connection.state == ConnectionState::Accepting,
    ensures
        ({
            let (after, action) = connection_step(connection, ConnectionEvent::AcceptFailed(level));
            let policy = propagation_of(level_kind_of(level));
            &&& policy == Propagation::EndConnection <==> after.state == ConnectionState::Closed
            &&& policy == Propagation::ConfinedToStream <==> after == connection && action
                == ConnectionAction::AcceptRequest
        }),
{
}

/// A connection is closed for a failure only on an error whose kind ends
/// a connection or a session, never on one that stays with its stream.
pub proof fn lemma_close_reasons_follow_policy(connection: Connection, event: ConnectionEvent)
    requires
        connection_step(connection, event).1 matches ConnectionAction::Close(reason)
            && close_kind_of(reason) is Some,
    ensures
        connection_step(connection, event).1 matches ConnectionAction::Close(reason) && (
        propagation_of(close_kind_of(reason).unwrap()) == Propagation::EndConnection
            || propagation_of(close_kind_of(reason).unwrap()) == Propagation::EndSession),
{
}

/// The session loop follows the policy: every failure that stops the
/// loop is an error of the session, and errors of that kind end the
/// session loop.
pub proof fn lemma_session_follows_policy(session: Session, event: SessionEvent)
    requires
        session_step(session, event).1 matches SessionAction::Drain(reason) && reason.is_failure_spec(),
    ensures
        session_step(session, event).1 matches SessionAction::Drain(reason) && stop_kind_of(reason)
            == Some(ErrorKind::Session),
        propagation_of(ErrorKind::Session) == Propagation::EndSession,
        session_step(session, event).0.state == SessionState::Draining,
{
}

/// The failure of an echo task is an error of its stream and stays with
/// it: the task gives no event to the session that spawned it.
pub proof fn lemma_echo_failures_stay_with_the_stream(task: EchoTask, event: EchoEvent)
    requires
        echo_step(task, event).1 matches EchoAction::Close(outcome) && outcome
            != EchoOutcome::Echoed,
    ensures
        echo_step(task, event).1 matches EchoAction::Close(outcome) && echo_kind_of(outcome) == Some(
            ErrorKind::Stream,
        ),
        propagation_of(ErrorKind::Stream) == Propagation::ConfinedToStream,
{
}

} // verus!
