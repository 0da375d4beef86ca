//! The life of the endpoint, from startup to shutdown.
//!
//! The endpoint resolves its listen addresses, reads the key file and
//! then the certificate file, builds its configuration, binds the UDP
//! socket, accepts connections until it is closed, and waits for the
//! connections that are left. The caller resolves, reads, binds and
//! waits, and reports what came of it; `Endpoint::step` says what to do
//! next.

use crate::config::{
    quic_tls_settings, quic_transport_settings, server_config, signing_key_accepted, standard_tls,
    standard_transport, TlsConfigError,
};
use crate::credentials::{
    cert_chain_of, load_cert_chain, load_private_key, private_key_of, Certs, CredentialError,
    PrivateKey,
};
use crate::dispatch::{fresh_connection, Connection};
use crate::errors::{exit_status, exit_status_of, StartupError};
use std::path::PathBuf;
use vstd::prelude::*;

verus! {

/// Where the endpoint is in its life.
#[derive(Debug)]
pub enum EndpointState {
    /// The listen addresses are being resolved.
    Resolving,
    /// The key file is being read.
    ReadingKey,
    /// The key is loaded and the certificate file is being read.
    ReadingChain(PrivateKey),
    /// The configuration is built and the UDP socket is being bound.
    Binding,
    /// Connections are being accepted.
    Accepting,
    /// No more connections are accepted; the ones that are left are
    /// waited for.
    Draining,
    /// The endpoint is gone: after a shutdown in order (`None`), or for
    /// a startup error.
    Stopped(Option<StartupError>),
}

/// What happened while the endpoint was waiting.
#[derive(Debug)]
pub enum EndpointEvent {
    /// The listen addresses resolved (`true`) or not.
    AddressesResolved(bool),
    /// The file asked for was read (`Some`, with its bytes), or could
    /// not be read.
    FileRead(Option<Vec<u8>>),
    /// The UDP socket was bound (`true`) or not.
    Bound(bool),
    /// A connection came in.
    Incoming,
    /// The endpoint was closed: no more connections will come in.
    AcceptEnded,
    /// Every connection is gone.
    Idle,
}

/// What the caller of an endpoint does next.
#[derive(Debug)]
pub enum EndpointAction {
    /// Read this file, then report `FileRead`.
    ReadFile(PathBuf),
    /// Bind the UDP socket with this configuration, then report `Bound`.
    Bind(quinn::ServerConfig),
    /// Wait for the next connection.
    Accept,
    /// Run this dispatcher on the connection that came in, on a task of
    /// its own, and wait for the next connection.
    Spawn(Connection),
    /// Wait until every connection is gone, then report `Idle`.
    WaitIdle,
    /// Leave the process with this status.
    Exit(i32),
    /// The event came at a time when it means nothing: do nothing.
    Ignore,
}

/// The endpoint.
#[derive(Debug)]
pub struct Endpoint {
    /// Where the TLS identity is kept.
    pub certs: Certs,
    pub state: EndpointState,
}

/// Whether `after` and `action` are the endpoint stopped for `error`.
pub open spec fn stops_with(
    before: Endpoint,
    after: Endpoint,
    action: EndpointAction,
    error: Option<StartupError>,
) -> bool {
    &&& after.certs == before.certs
    &&& after.state == EndpointState::Stopped(error)
    &&& action == EndpointAction::Exit(exit_status_of(error))
}

/// Whether `after` and `action` are the endpoint in `state`, asking for
/// `wanted`.
pub open spec fn moves_to(
    before: Endpoint,
    after: Endpoint,
    action: EndpointAction,
    state: EndpointState,
    wanted: EndpointAction,
) -> bool {
    &&& after.certs == before.certs
    &&& after.state == state
    &&& action == wanted
}

/// One step of the endpoint: whether `after` and `action` are what
/// follows from `before` and `event`.
///
/// Startup goes through its stages in order, and the first stage that
/// fails stops the endpoint with its error and a status other than zero.
/// The socket is bound only with a configuration built from a key and a
/// chain that were both loaded. While connections are accepted, each one
/// gets a dispatcher of its own. After the endpoint is closed it waits
/// for its connections and stops with status zero.
pub open spec fn endpoint_step(
    before: Endpoint,
    event: EndpointEvent,
    after: Endpoint,
    action: EndpointAction,
) -> bool {
    match (before.state, event) {
        (EndpointState::Resolving, EndpointEvent::AddressesResolved(true)) => moves_to(
            before,
            after,
            action,
            EndpointState::ReadingKey,
            EndpointAction::ReadFile(before.certs.key),
        ),
        (EndpointState::Resolving, EndpointEvent::AddressesResolved(false)) => stops_with(
            before,
            after,
            action,
            Some(StartupError::Config),
        ),
        (EndpointState::ReadingKey, EndpointEvent::FileRead(None)) => stops_with(
            before,
            after,
            action,
            Some(StartupError::Credential(CredentialError::KeyUnreadable)),
        ),
        (EndpointState::ReadingKey, EndpointEvent::FileRead(Some(file))) => {
            match private_key_of(before.certs.key_encoding_of(), file@) {
                Ok(der) => {
                    &&& after.certs == before.certs
                    &&& after.state matches EndpointState::ReadingChain(key)
                    &&& key@ == der
                    &&& action == EndpointAction::ReadFile(before.certs.cert)
                },
                Err(e) => stops_with(before, after, action, Some(StartupError::Credential(e))),
            }
        },
        (EndpointState::ReadingChain(_), EndpointEvent::FileRead(None)) => stops_with(
            before,
            after,
            action,
            Some(StartupError::Credential(CredentialError::ChainUnreadable)),
        ),
        (EndpointState::ReadingChain(key), EndpointEvent::FileRead(Some(file))) => {
            match cert_chain_of(before.certs.cert_encoding_of(), file@) {
                Ok(chain) => {
                    if signing_key_accepted(key@) {
                        &&& after.certs == before.certs
                        &&& after.state == EndpointState::Binding
                        &&& action matches EndpointAction::Bind(cfg)
                        &&& quic_tls_settings(cfg) == standard_tls(key@, chain)
                        &&& quic_transport_settings(cfg) == standard_transport()
                    } else {
                        stops_with(
                            before,
                            after,
                            action,
                            Some(StartupError::TlsConfig(TlsConfigError::InvalidPrivateKey)),
                        )
                    }
                },
                Err(e) => stops_with(before, after, action, Some(StartupError::Credential(e))),
            }
        },
        (EndpointState::Binding, EndpointEvent::Bound(true)) => moves_to(
            before,
            after,
            action,
            EndpointState::Accepting,
            EndpointAction::Accept,
        ),
        (EndpointState::Binding, EndpointEvent::Bound(false)) => stops_with(
            before,
            after,
            action,
            Some(StartupError::Bind),
        ),
        (EndpointState::Accepting, EndpointEvent::Incoming) => moves_to(
            before,
            after,
            action,
            EndpointState::Accepting,
            EndpointAction::Spawn(fresh_connection()),
        ),
        (EndpointState::Accepting, EndpointEvent::AcceptEnded) => moves_to(
            before,
            after,
            action,
            EndpointState::Draining,
            EndpointAction::WaitIdle,
        ),
        (EndpointState::Draining, EndpointEvent::Idle) => stops_with(before, after, action, None),
        _ => after == before && action == EndpointAction::Ignore,
    }
}

impl Endpoint {
    /// The endpoint before anything has happened: its listen addresses
    /// are to be resolved.
    pub fn new(certs: Certs) -> (endpoint: Endpoint)
        ensures
            endpoint == (Endpoint { certs, state: EndpointState::Resolving }),
    {
        Endpoint { certs, state: EndpointState::Resolving }
    }

    /// Whether the endpoint is gone.
    pub fn is_stopped(&self) -> (stopped: bool)
        ensures
            stopped == (self.state is Stopped),
    {
        match &self.state {
            EndpointState::Stopped(_) => true,
            _ => false,
        }
    }

    /// The startup error that stopped the endpoint, if one did.
    pub fn startup_error(&self) -> (error: Option<StartupError>)
        ensures
            error == (match self.state {
                EndpointState::Stopped(e) => e,
                _ => None,
            }),
    {
        match &self.state {
            EndpointState::Stopped(e) => *e,
            _ => None,
        }
    }

    /// Takes one event and says what to do next.
    pub fn step(self, event: EndpointEvent) -> (r: (Endpoint, EndpointAction))
        ensures
            endpoint_step(self, event, r.0, r.1),
    {
        let certs = self.certs;
        match (self.state, event) {
            (EndpointState::Resolving, EndpointEvent::AddressesResolved(resolved)) => {
                if resolved {
                    let path = certs.key.clone();
                    (Endpoint { certs, state: EndpointState::ReadingKey }, EndpointAction::ReadFile(path))
                } else {
                    Endpoint::stop(certs, Some(StartupError::Config))
                }
            },
            (EndpointState::ReadingKey, EndpointEvent::FileRead(read)) => {
                match read {
                    None => Endpoint::stop(
                        certs,
                        Some(StartupError::Credential(CredentialError::KeyUnreadable)),
                    ),
                    Some(file) => {
                        let encoding = certs.key_encoding();
                        match load_private_key(encoding, file) {
                            Ok(key) => {
                                let path = certs.cert.clone();
                                (
                                    Endpoint { certs, state: EndpointState::ReadingChain(key) },
                                    EndpointAction::ReadFile(path),
                                )
                            },
                            Err(e) => Endpoint::stop(certs, Some(StartupError::Credential(e))),
                        }
                    },
                }
            },
            (EndpointState::ReadingChain(key), EndpointEvent::FileRead(read)) => {
                match read {
                    None => Endpoint::stop(
                        certs,
                        Some(StartupError::Credential(CredentialError::ChainUnreadable)),
                    ),
                    Some(file) => {
                        let encoding = certs.cert_encoding();
                        match load_cert_chain(encoding, file) {
                            Ok(chain) => match server_config(key, chain) {
                                Ok(cfg) => (
                                    Endpoint { certs, state: EndpointState::Binding },
                                    EndpointAction::Bind(cfg),
                                ),
                                Err(e) => Endpoint::stop(certs, Some(StartupError::TlsConfig(e))),
                            },
                            Err(e) => Endpoint::stop(certs, Some(StartupError::Credential(e))),
                        }
                    },
                }
            },
            (EndpointState::Binding, EndpointEvent::Bound(bound)) => {
                if bound {
                    (Endpoint { certs, state: EndpointState::Accepting }, EndpointAction::Accept)
                } else {
                    Endpoint::stop(certs, Some(StartupError::Bind))
                }
            },
            (EndpointState::Accepting, EndpointEvent::Incoming) => (
                Endpoint { certs, state: EndpointState::Accepting },
                EndpointAction::Spawn(Connection::new()),
            ),
            (EndpointState::Accepting, EndpointEvent::AcceptEnded) => (
                Endpoint { certs, state: EndpointState::Draining },
                EndpointAction::WaitIdle,
            ),
            (EndpointState::Draining, EndpointEvent::Idle) => Endpoint::stop(certs, None),
            (state, _) => (Endpoint { certs, state }, EndpointAction::Ignore),
        }
    }

    fn stop(certs: Certs, error: Option<StartupError>) -> (r: (Endpoint, EndpointAction))
        ensures
            r.0 == (Endpoint { certs, state: EndpointState::Stopped(error) }),
            r.1 == EndpointAction::Exit(exit_status_of(error)),
    {
        let status = exit_status(&error);
        (Endpoint { certs, state: EndpointState::Stopped(error) }, EndpointAction::Exit(status))
    }
}

/// The socket is bound only after the credentials: a step asks to bind
/// only when the key is loaded and the certificate file has just been
/// read, and the configuration it hands out holds the endpoint's TLS
/// and transport settings with that key.
pub proof fn lemma_bind_needs_credentials(
    before: Endpoint,
    event: EndpointEvent,
    after: Endpoint,
    action: EndpointAction,
)
    requires
        endpoint_step(before, event, after, action),
        action is Bind,
    ensures
        before.state is ReadingChain,
        event matches EndpointEvent::FileRead(Some(_)),
        after.state == EndpointState::Binding,
        before.state matches EndpointState::ReadingChain(key) && action matches EndpointAction::Bind(
            cfg,
        ) && quic_tls_settings(cfg).key == key@ && quic_tls_settings(cfg).tls13_only
            && quic_transport_settings(cfg) == standard_transport(),
{
}

/// A file that cannot be read stops the startup: the endpoint exits
/// with a status other than zero and does not ask to bind.
pub proof fn lemma_unreadable_file_stops_startup(
    before: Endpoint,
    after: Endpoint,
    action: EndpointAction,
)
    requires
        before.state is ReadingKey || before.state is ReadingChain,
        endpoint_step(before, EndpointEvent::FileRead(None), after, action),
    ensures
        after.state matches EndpointState::Stopped(Some(StartupError::Credential(_))),
        action matches EndpointAction::Exit(status) && status != 0,
{
}

/// The endpoint exits with status zero only after a shutdown in order:
/// from the draining state, once every connection is gone.
pub proof fn lemma_exit_status(
    before: Endpoint,
    event: EndpointEvent,
    after: Endpoint,
    action: EndpointAction,
)
    requires
        endpoint_step(before, event, after, action),
        action matches EndpointAction::Exit(_),
    ensures
        action matches EndpointAction::Exit(status) && (status == 0 <==> before.state is Draining
            && event is Idle),
        after.state is Stopped,
{
}

/// A stopped endpoint stays stopped and asks for nothing more.
pub proof fn lemma_stopped_is_final(
    before: Endpoint,
    event: EndpointEvent,
    after: Endpoint,
    action: EndpointAction,
)
    requires
        before.state is Stopped,
        endpoint_step(before, event, after, action),
    ensures
        after == before,
        action == EndpointAction::Ignore,
{
}

/// While connections are accepted, a connection that comes in gets a
/// fresh dispatcher and leaves the endpoint accepting; nothing that
/// happens to a connection is an event of the endpoint.
pub proof fn lemma_incoming_keeps_accepting(
    before: Endpoint,
    after: Endpoint,
    action: EndpointAction,
)
    requires
        before.state is Accepting,
        endpoint_step(before, EndpointEvent::Incoming, after, action),
    ensures
        after.state is Accepting,
        action == EndpointAction::Spawn(fresh_connection()),
{
}

/// Whether three sequences are a run of the endpoint: each state follows
/// from the one before by the event and with the action of its step.
pub open spec fn endpoint_run(
    states: Seq<Endpoint>,
    events: Seq<EndpointEvent>,
    actions: Seq<EndpointAction>,
) -> bool {
    &&& states.len() == events.len() + 1
    &&& actions.len() == events.len()
    &&& forall|i: int|
        0 <= i < events.len() ==> endpoint_step(
            #[trigger] states[i],
            events[i],
            states[i + 1],
            actions[i],
        )
}

/// Once the endpoint has stopped, nothing is asked for any more in the
/// rest of a run: in particular, no socket is bound.
pub proof fn lemma_nothing_after_stop(
    states: Seq<Endpoint>,
    events: Seq<EndpointEvent>,
    actions: Seq<EndpointAction>,
    stop: int,
    later: int,
)
    requires
        endpoint_run(states, events, actions),
        0 <= stop <= later < events.len(),
        states[stop].state is Stopped,
    ensures
        states[later] == states[stop],
        actions[later] == EndpointAction::Ignore,
    decreases later - stop,
{
    if stop < later {
        lemma_nothing_after_stop(states, events, actions, stop, later - 1);
        assert(endpoint_step(states[later - 1], events[later - 1], states[later], actions[later - 1]));
    }
    assert(endpoint_step(states[later], events[later], states[later + 1], actions[later]));
}

/// A key file that cannot be read ends the startup before the socket is
/// opened: in every run that starts with the failed read, the endpoint
/// exits at once with a status other than zero and never asks to bind.
pub proof fn lemma_unreadable_key_never_binds(
    states: Seq<Endpoint>,
    events: Seq<EndpointEvent>,
    actions: Seq<EndpointAction>,
    i: int,
)
    requires
        endpoint_run(states, events, actions),
        0 <= i < events.len(),
        states[0].state is ReadingKey,
        events[0] == EndpointEvent::FileRead(None),
    ensures
        actions[0] matches EndpointAction::Exit(status) && status != 0,
        !(actions[i] is Bind),
{
    assert(endpoint_step(states[0], events[0], states[1], actions[0]));
    if i > 0 {
        lemma_nothing_after_stop(states, events, actions, 1, i);
    }
}

/// Whether an event reports a file that was read.
pub open spec fn is_read(event: EndpointEvent) -> bool {
    event matches EndpointEvent::FileRead(Some(_))
}

/// In a run from the start, an endpoint that waits for its certificate
/// file has had its key file read before.
pub proof fn lemma_key_was_read(
    states: Seq<Endpoint>,
    events: Seq<EndpointEvent>,
    actions: Seq<EndpointAction>,
    i: int,
)
    requires
        endpoint_run(states, events, actions),
        0 <= i <= events.len(),
        states[0].state is Resolving,
        states[i].state is ReadingChain,
    ensures
        exists|k: int| 0 <= k < i && (#[trigger] states[k]).state is ReadingKey && is_read(events[k]),
    decreases i,
{
    assert(endpoint_step(states[i - 1], events[i - 1], states[i], actions[i - 1]));
    if states[i - 1].state is ReadingChain {
        lemma_key_was_read(states, events, actions, i - 1);
        let k = choose|k: int|
            0 <= k < i - 1 && (#[trigger] states[k]).state is ReadingKey && is_read(events[k]);
        assert(0 <= k < i && states[k].state is ReadingKey && is_read(events[k]));
    } else {
        assert(states[i - 1].state is ReadingKey && is_read(events[i - 1]));
    }
}

/// Startup order: in a run from the start, the socket is bound only
/// after the key file and then the certificate file were both read.
pub proof fn lemma_bind_follows_both_reads(
    states: Seq<Endpoint>,
    events: Seq<EndpointEvent>,
    actions: Seq<EndpointAction>,
    i: int,
)
    requires
        endpoint_run(states, events, actions),
        0 <= i < events.len(),
        states[0].state is Resolving,
        actions[i] is Bind,
    ensures
        states[i].state is ReadingChain && is_read(events[i]),
        exists|k: int| 0 <= k < i && (#[trigger] states[k]).state is ReadingKey && is_read(events[k]),
{
    assert(endpoint_step(states[i], events[i], states[i + 1], actions[i]));
    lemma_key_was_read(states, events, actions, i);
}

} // verus!
