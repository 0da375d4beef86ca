use sec_http3::webtransport::SessionId;
use webtransport_echo_server::config::Http3Settings;
use webtransport_echo_server::dispatch::{
    CloseReason, Connection, ConnectionAction, ConnectionEvent, ConnectionState, ErrorLevel,
    RequestClass, RequestHead,
};
use webtransport_echo_server::session::{Session, SessionState};

fn head(method: &str, protocol: Option<&str>) -> RequestHead {
    RequestHead { method: method.to_string(), protocol: protocol.map(|p| p.to_string()) }
}

fn id(n: u64) -> SessionId {
    SessionId::try_from(n).unwrap()
}

fn in_state(state: ConnectionState) -> Connection {
    Connection { state, settings: Http3Settings::webtransport() }
}

fn accepting() -> Connection {
    let (c, _) = Connection::new().step(ConnectionEvent::HandshakeDone(true));
    let (c, _) = c.step(ConnectionEvent::Http3Ready(true));
    c
}

#[test]
fn connect_for_webtransport_is_an_upgrade() {
    assert_eq!(head("CONNECT", Some("webtransport")).classify(), RequestClass::WebTransportUpgrade);
}

#[test]
fn connect_without_protocol_is_plain() {
    assert_eq!(head("CONNECT", None).classify(), RequestClass::Plain);
}

#[test]
fn connect_for_another_protocol_is_plain() {
    assert_eq!(head("CONNECT", Some("websocket")).classify(), RequestClass::Plain);
    assert_eq!(head("CONNECT", Some("WebTransport")).classify(), RequestClass::Plain);
    assert_eq!(head("CONNECT", Some("")).classify(), RequestClass::Plain);
    assert_eq!(head("CONNECT", Some("webtransport ")).classify(), RequestClass::Plain);
}

#[test]
fn other_methods_are_plain() {
    assert_eq!(head("GET", Some("webtransport")).classify(), RequestClass::Plain);
    assert_eq!(head("GET", None).classify(), RequestClass::Plain);
    assert_eq!(head("POST", Some("webtransport")).classify(), RequestClass::Plain);
    assert_eq!(head("connect", Some("webtransport")).classify(), RequestClass::Plain);
    assert_eq!(head("", Some("webtransport")).classify(), RequestClass::Plain);
}

#[test]
fn new_connection_waits_for_its_handshake() {
    let c = Connection::new();
    assert_eq!(c.state, ConnectionState::Handshaking);
    assert_eq!(c.settings, Http3Settings::webtransport());
    assert!(!c.is_closed());
}

#[test]
fn handshake_leads_to_http3_setup() {
    let (c, action) = Connection::new().step(ConnectionEvent::HandshakeDone(true));
    assert_eq!(c.state, ConnectionState::Negotiating);
    assert_eq!(action, ConnectionAction::SetUpHttp3(Http3Settings::webtransport()));
}

#[test]
fn failed_handshake_closes() {
    let (c, action) = Connection::new().step(ConnectionEvent::HandshakeDone(false));
    assert_eq!(c.state, ConnectionState::Closed);
    assert_eq!(action, ConnectionAction::Close(CloseReason::HandshakeFailed));
    assert!(c.is_closed());
}

#[test]
fn http3_setup_leads_to_accepting() {
    let (c, action) = in_state(ConnectionState::Negotiating).step(ConnectionEvent::Http3Ready(true));
    assert_eq!(c.state, ConnectionState::Accepting);
    assert_eq!(action, ConnectionAction::AcceptRequest);
}

#[test]
fn failed_http3_setup_closes() {
    let (c, action) =
        in_state(ConnectionState::Negotiating).step(ConnectionEvent::Http3Ready(false));
    assert_eq!(c.state, ConnectionState::Closed);
    assert_eq!(action, ConnectionAction::Close(CloseReason::Http3SetupFailed));
}

#[test]
fn upgrade_request_is_answered() {
    let (c, action) =
        accepting().step(ConnectionEvent::Request(head("CONNECT", Some("webtransport"))));
    assert_eq!(c.state, ConnectionState::UpgradingWebTransport);
    assert_eq!(action, ConnectionAction::Upgrade);
}

#[test]
fn connect_without_webtransport_starts_no_session() {
    let (c, action) = accepting().step(ConnectionEvent::Request(head("CONNECT", None)));
    assert_eq!(c.state, ConnectionState::Accepting);
    assert_eq!(action, ConnectionAction::AcceptRequest);
    let (c, action) = c.step(ConnectionEvent::Request(head("CONNECT", Some("websocket"))));
    assert_eq!(c.state, ConnectionState::Accepting);
    assert_eq!(action, ConnectionAction::AcceptRequest);
}

#[test]
fn plain_request_starts_no_session() {
    let (c, action) = accepting().step(ConnectionEvent::Request(head("GET", Some("webtransport"))));
    assert_eq!(c.state, ConnectionState::Accepting);
    assert_eq!(action, ConnectionAction::AcceptRequest);
}

#[test]
fn end_of_requests_closes() {
    let (c, action) = accepting().step(ConnectionEvent::RequestsEnded);
    assert_eq!(c.state, ConnectionState::Closed);
    assert_eq!(action, ConnectionAction::Close(CloseReason::RequestsEnded));
}

#[test]
fn connection_error_closes() {
    let (c, action) =
        accepting().step(ConnectionEvent::AcceptFailed(ErrorLevel::ConnectionError));
    assert_eq!(c.state, ConnectionState::Closed);
    assert_eq!(action, ConnectionAction::Close(CloseReason::ConnectionError));
}

#[test]
fn stream_error_is_passed_over() {
    let (c, action) = accepting().step(ConnectionEvent::AcceptFailed(ErrorLevel::StreamError));
    assert_eq!(c.state, ConnectionState::Accepting);
    assert_eq!(action, ConnectionAction::AcceptRequest);
    let (c, action) = c.step(ConnectionEvent::Request(head("CONNECT", Some("webtransport"))));
    assert_eq!(c.state, ConnectionState::UpgradingWebTransport);
    assert_eq!(action, ConnectionAction::Upgrade);
}

#[test]
fn upgrade_starts_the_session() {
    let (c, action) =
        in_state(ConnectionState::UpgradingWebTransport).step(ConnectionEvent::Upgraded(Some(id(4))));
    assert_eq!(c.state, ConnectionState::InSession);
    assert_eq!(
        action,
        ConnectionAction::RunSession(Session { id: id(4), state: SessionState::Active })
    );
}

#[test]
fn failed_upgrade_closes() {
    let (c, action) =
        in_state(ConnectionState::UpgradingWebTransport).step(ConnectionEvent::Upgraded(None));
    assert_eq!(c.state, ConnectionState::Closed);
    assert_eq!(action, ConnectionAction::Close(CloseReason::UpgradeFailed));
}

#[test]
fn session_end_closes_the_connection() {
    let (c, action) = in_state(ConnectionState::InSession).step(ConnectionEvent::SessionReturned(true));
    assert_eq!(c.state, ConnectionState::Closed);
    assert_eq!(action, ConnectionAction::Close(CloseReason::SessionEnded));
    let (c, action) =
        in_state(ConnectionState::InSession).step(ConnectionEvent::SessionReturned(false));
    assert_eq!(c.state, ConnectionState::Closed);
    assert_eq!(action, ConnectionAction::Close(CloseReason::SessionFailed));
}

#[test]
fn requests_during_a_session_start_no_second_one() {
    let c = in_state(ConnectionState::InSession);
    let (c, action) = c.step(ConnectionEvent::Request(head("CONNECT", Some("webtransport"))));
    assert_eq!(c.state, ConnectionState::InSession);
    assert_eq!(action, ConnectionAction::Ignore);
    let (c, action) = c.step(ConnectionEvent::Upgraded(Some(id(8))));
    assert_eq!(c.state, ConnectionState::InSession);
    assert_eq!(action, ConnectionAction::Ignore);
}

#[test]
fn closed_connection_stays_closed() {
    let mut c = in_state(ConnectionState::Closed);
    let events = vec![
        ConnectionEvent::HandshakeDone(true),
        ConnectionEvent::Http3Ready(true),
        ConnectionEvent::Request(head("CONNECT", Some("webtransport"))),
        ConnectionEvent::RequestsEnded,
        ConnectionEvent::AcceptFailed(ErrorLevel::StreamError),
        ConnectionEvent::Upgraded(Some(id(0))),
        ConnectionEvent::SessionReturned(true),
    ];
    for event in events {
        let (next, action) = c.step(event);
        assert_eq!(next.state, ConnectionState::Closed);
        assert_eq!(action, ConnectionAction::Ignore);
        c = next;
    }
}

#[test]
fn events_out_of_turn_are_ignored() {
    let (c, action) = Connection::new().step(ConnectionEvent::Http3Ready(true));
    assert_eq!(c.state, ConnectionState::Handshaking);
    assert_eq!(action, ConnectionAction::Ignore);
    let (c, action) = accepting().step(ConnectionEvent::Upgraded(Some(id(4))));
    assert_eq!(c.state, ConnectionState::Accepting);
    assert_eq!(action, ConnectionAction::Ignore);
    let (c, action) = accepting().step(ConnectionEvent::SessionReturned(true));
    assert_eq!(c.state, ConnectionState::Accepting);
    assert_eq!(action, ConnectionAction::Ignore);
}

#[test]
fn whole_life_of_an_upgraded_connection() {
    let c = Connection::new();
    let (c, a1) = c.step(ConnectionEvent::HandshakeDone(true));
    let (c, a2) = c.step(ConnectionEvent::Http3Ready(true));
    let (c, a3) = c.step(ConnectionEvent::Request(head("GET", None)));
    let (c, a4) = c.step(ConnectionEvent::Request(head("CONNECT", Some("webtransport"))));
    let (c, a5) = c.step(ConnectionEvent::Upgraded(Some(id(0))));
    let (c, a6) = c.step(ConnectionEvent::SessionReturned(true));
    assert_eq!(a1, ConnectionAction::SetUpHttp3(Http3Settings::webtransport()));
    assert_eq!(a2, ConnectionAction::AcceptRequest);
    assert_eq!(a3, ConnectionAction::AcceptRequest);
    assert_eq!(a4, ConnectionAction::Upgrade);
    assert_eq!(a5, ConnectionAction::RunSession(Session::new(id(0))));
    assert_eq!(a6, ConnectionAction::Close(CloseReason::SessionEnded));
    assert!(c.is_closed());
}

#[test]
fn close_reasons_tell_failure_from_end() {
    assert!(!CloseReason::RequestsEnded.is_failure());
    assert!(!CloseReason::SessionEnded.is_failure());
    assert!(CloseReason::HandshakeFailed.is_failure());
    assert!(CloseReason::Http3SetupFailed.is_failure());
    assert!(CloseReason::ConnectionError.is_failure());
    assert!(CloseReason::UpgradeFailed.is_failure());
    assert!(CloseReason::SessionFailed.is_failure());
}
