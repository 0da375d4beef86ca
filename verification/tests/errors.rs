use webtransport_echo_server::config::TlsConfigError;
use webtransport_echo_server::credentials::CredentialError;
use webtransport_echo_server::dispatch::{CloseReason, ErrorLevel};
use webtransport_echo_server::errors::{
    exit_status, ErrorKind, Propagation, StartupError, EXIT_FAILURE, EXIT_SUCCESS,
};
use webtransport_echo_server::session::{Channel, EchoOutcome, StopReason};

#[test]
fn startup_errors_end_the_process() {
    assert_eq!(ErrorKind::Config.propagation(), Propagation::ExitProcess);
    assert_eq!(ErrorKind::Credential.propagation(), Propagation::ExitProcess);
    assert_eq!(ErrorKind::TlsConfig.propagation(), Propagation::ExitProcess);
    assert_eq!(ErrorKind::Bind.propagation(), Propagation::ExitProcess);
}

#[test]
fn connection_errors_end_the_connection() {
    assert_eq!(ErrorKind::Connection.propagation(), Propagation::EndConnection);
    assert_eq!(ErrorLevel::ConnectionError.kind(), ErrorKind::Connection);
}

#[test]
fn stream_errors_stay_with_the_stream() {
    assert_eq!(ErrorKind::Stream.propagation(), Propagation::ConfinedToStream);
    assert_eq!(ErrorLevel::StreamError.kind(), ErrorKind::Stream);
}

#[test]
fn session_errors_end_the_session() {
    assert_eq!(ErrorKind::Session.propagation(), Propagation::EndSession);
}

#[test]
fn startup_error_kinds() {
    assert_eq!(StartupError::Config.kind(), ErrorKind::Config);
    assert_eq!(
        StartupError::Credential(CredentialError::NoPrivateKey).kind(),
        ErrorKind::Credential
    );
    assert_eq!(
        StartupError::TlsConfig(TlsConfigError::InvalidPrivateKey).kind(),
        ErrorKind::TlsConfig
    );
    assert_eq!(StartupError::Bind.kind(), ErrorKind::Bind);
}

#[test]
fn startup_error_messages() {
    assert_eq!(StartupError::Config.message(), "listen address is not a valid socket address");
    assert_eq!(
        StartupError::Credential(CredentialError::KeyUnreadable).message(),
        "failed to read private key"
    );
    assert_eq!(
        StartupError::TlsConfig(TlsConfigError::InvalidPrivateKey).message(),
        "invalid private key"
    );
    assert_eq!(StartupError::Bind.message(), "failed to bind the UDP socket");
}

#[test]
fn close_reason_kinds() {
    assert_eq!(CloseReason::HandshakeFailed.kind(), Some(ErrorKind::Connection));
    assert_eq!(CloseReason::Http3SetupFailed.kind(), Some(ErrorKind::Connection));
    assert_eq!(CloseReason::ConnectionError.kind(), Some(ErrorKind::Connection));
    assert_eq!(CloseReason::UpgradeFailed.kind(), Some(ErrorKind::Connection));
    assert_eq!(CloseReason::SessionFailed.kind(), Some(ErrorKind::Session));
    assert_eq!(CloseReason::RequestsEnded.kind(), None);
    assert_eq!(CloseReason::SessionEnded.kind(), None);
}

#[test]
fn stop_reason_kinds() {
    assert_eq!(StopReason::Exhausted(Channel::UniStream).kind(), None);
    assert_eq!(StopReason::AcceptFailed(Channel::BidiStream).kind(), Some(ErrorKind::Session));
    assert_eq!(StopReason::SendFailed.kind(), Some(ErrorKind::Session));
}

#[test]
fn echo_outcome_kinds() {
    assert_eq!(EchoOutcome::Echoed.kind(), None);
    assert_eq!(EchoOutcome::ReceiveFailed.kind(), Some(ErrorKind::Stream));
    assert_eq!(EchoOutcome::OpenFailed.kind(), Some(ErrorKind::Stream));
    assert_eq!(EchoOutcome::WriteFailed.kind(), Some(ErrorKind::Stream));
}

#[test]
fn exit_status_is_zero_only_without_error() {
    assert_eq!(exit_status(&None), 0);
    assert_eq!(exit_status(&None), EXIT_SUCCESS);
    assert_eq!(exit_status(&Some(StartupError::Bind)), EXIT_FAILURE);
    assert_ne!(exit_status(&Some(StartupError::Config)), 0);
    assert_ne!(
        exit_status(&Some(StartupError::Credential(CredentialError::KeyUnreadable))),
        0
    );
    assert_ne!(
        exit_status(&Some(StartupError::TlsConfig(TlsConfigError::InvalidPrivateKey))),
        0
    );
}
