use webtransport_echo_server::config::{
    alpn_protocols, http3_builder, quic_server_config, server_config, tls_server_config,
    transport_config, Http3Settings, TlsConfigError, KEEP_ALIVE_INTERVAL_MS, MAX_EARLY_DATA_SIZE,
    MAX_IDLE_TIMEOUT_MS, MAX_WEBTRANSPORT_SESSIONS,
};
use webtransport_echo_server::credentials::{Certificate, PrivateKey};

/// An Ed25519 private key in PKCS #8: the fixed header and a seed.
fn ed25519_key() -> PrivateKey {
    let mut der = vec![
        0x30, 0x2e, 0x02, 0x01, 0x00, 0x30, 0x05, 0x06, 0x03, 0x2b, 0x65, 0x70, 0x04, 0x22, 0x04,
        0x20,
    ];
    for i in 0..32u8 {
        der.push(i.wrapping_mul(7).wrapping_add(1));
    }
    PrivateKey(der)
}

fn chain() -> Vec<Certificate> {
    vec![Certificate(vec![0x30, 0x03, 0x01, 0x01, 0x00])]
}

#[test]
fn alpn_list_is_h3_and_its_drafts() {
    assert_eq!(
        alpn_protocols(),
        vec![
            b"h3".to_vec(),
            b"h3-32".to_vec(),
            b"h3-31".to_vec(),
            b"h3-30".to_vec(),
            b"h3-29".to_vec(),
        ]
    );
}

#[test]
fn alpn_list_holds_no_older_http() {
    let list = alpn_protocols();
    assert!(list.contains(&b"h3".to_vec()));
    assert!(!list.contains(&b"h2".to_vec()));
    assert!(!list.contains(&b"http/1.1".to_vec()));
}

#[test]
fn timers_are_two_and_ten_seconds() {
    assert_eq!(KEEP_ALIVE_INTERVAL_MS, 2_000);
    assert_eq!(MAX_IDLE_TIMEOUT_MS, 10_000);
}

#[test]
fn keep_alive_comes_before_the_idle_timeout() {
    assert!(KEEP_ALIVE_INTERVAL_MS < u64::from(MAX_IDLE_TIMEOUT_MS));
    assert!(9_000 / KEEP_ALIVE_INTERVAL_MS >= 4);
}

#[test]
fn early_data_limit_is_the_largest() {
    assert_eq!(MAX_EARLY_DATA_SIZE, u32::MAX);
}

#[test]
fn tls_config_offers_the_alpn_list() {
    let cfg = tls_server_config(ed25519_key(), chain()).unwrap();
    assert_eq!(cfg.alpn_protocols, alpn_protocols());
    assert_eq!(cfg.alpn_protocols[0], b"h3".to_vec());
    assert_eq!(cfg.alpn_protocols.len(), 5);
}

#[test]
fn tls_config_accepts_early_data() {
    let cfg = tls_server_config(ed25519_key(), chain()).unwrap();
    assert_eq!(cfg.max_early_data_size, u32::MAX);
}

#[test]
fn tls_config_takes_an_empty_chain() {
    assert!(tls_server_config(ed25519_key(), Vec::new()).is_ok());
}

#[test]
fn tls_config_refuses_a_key_that_is_none() {
    let r = tls_server_config(PrivateKey(vec![1, 2, 3]), chain());
    assert!(matches!(r, Err(TlsConfigError::InvalidPrivateKey)));
    let empty = tls_server_config(PrivateKey(Vec::new()), chain());
    assert!(matches!(empty, Err(TlsConfigError::InvalidPrivateKey)));
}

#[test]
fn transport_config_sets_both_timers() {
    let text = format!("{:?}", transport_config());
    assert!(text.contains("keep_alive_interval: Some(2s)"), "{}", text);
    assert!(text.contains("max_idle_timeout: Some(10000)"), "{}", text);
}

#[test]
fn idle_timeout_is_ten_seconds_in_the_server_config() {
    let tls = tls_server_config(ed25519_key(), chain()).unwrap();
    let cfg = quic_server_config(tls);
    let text = format!("{:?}", cfg.transport);
    assert!(text.contains("max_idle_timeout: Some(10000)"), "{}", text);
    assert!(text.contains("keep_alive_interval: Some(2s)"), "{}", text);
}

#[test]
fn server_config_goes_by_the_key() {
    let cfg = server_config(ed25519_key(), chain()).unwrap();
    let text = format!("{:?}", cfg.transport);
    assert!(text.contains("keep_alive_interval: Some(2s)"), "{}", text);
    let r = server_config(PrivateKey(vec![0x30, 0x00]), chain());
    assert!(matches!(r, Err(TlsConfigError::InvalidPrivateKey)));
}

#[test]
fn tls_error_message() {
    assert_eq!(TlsConfigError::InvalidPrivateKey.message(), "invalid private key");
}

#[test]
fn http3_settings_enable_webtransport() {
    let s = Http3Settings::webtransport();
    assert!(s.enable_extended_connect);
    assert!(s.enable_webtransport);
    assert!(s.enable_datagram);
    assert!(s.send_grease);
    assert_eq!(s.max_webtransport_sessions, 1);
    assert_eq!(MAX_WEBTRANSPORT_SESSIONS, 1);
}

#[test]
fn http3_builder_takes_any_settings() {
    let _standard = http3_builder(&Http3Settings::webtransport());
    let _off = http3_builder(&Http3Settings {
        enable_extended_connect: false,
        enable_webtransport: false,
        enable_datagram: false,
        max_webtransport_sessions: 0,
        send_grease: false,
    });
}
