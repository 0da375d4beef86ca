//! The fixed configuration of the endpoint: the TLS 1.3 server
//! configuration with the HTTP/3 protocol names, the QUIC transport
//! timers, and the HTTP/3 settings that make WebTransport possible.
//!
//! The configurations themselves are values of `rustls`, `quinn` and
//! `sec_http3`. What each of them holds is named here, and the functions
//! of this module are proved to put the right values in.

use crate::credentials::{blobs_of, chain_of, Certificate, PrivateKey};
use vstd::prelude::*;

verus! {

/// `rustls::ServerConfig`, carried through as an opaque value.
#[verifier::external_type_specification]
#[verifier::external_body]
pub struct ExTlsServerConfig(rustls::ServerConfig);

/// `rustls::Error`, carried through as an opaque value.
#[verifier::external_type_specification]
#[verifier::external_body]
pub struct ExTlsError(rustls::Error);

/// `quinn::TransportConfig`, carried through as an opaque value.
#[verifier::external_type_specification]
#[verifier::external_body]
pub struct ExTransportConfig(quinn::TransportConfig);

/// `quinn::ServerConfig`, carried through as an opaque value.
#[verifier::external_type_specification]
#[verifier::external_body]
pub struct ExQuicServerConfig(quinn::ServerConfig);

/// `sec_http3::server::Builder`, carried through as an opaque value.
#[verifier::external_type_specification]
#[verifier::external_body]
pub struct ExHttp3Builder(sec_http3::server::Builder);

/// Milliseconds of silence after which the endpoint pings a peer.
pub const KEEP_ALIVE_INTERVAL_MS: u64 = 2_000;

/// Milliseconds of silence after which a connection is closed.
pub const MAX_IDLE_TIMEOUT_MS: u32 = 10_000;

/// The amount of early data that the TLS layer accepts: the largest
/// value there is, the only one besides zero that QUIC admits.
pub const MAX_EARLY_DATA_SIZE: u32 = 0xffff_ffff;

/// How many WebTransport sessions one HTTP/3 connection may carry.
pub const MAX_WEBTRANSPORT_SESSIONS: u64 = 1;

/// What a TLS server configuration holds, as far as this library sets it.
#[verifier::ext_equal]
pub struct TlsSettings {
    /// The cipher suites and key-exchange groups are the safe defaults.
    pub safe_defaults: bool,
    /// TLS 1.3 is the one protocol version enabled.
    pub tls13_only: bool,
    /// Clients are asked for a certificate.
    pub client_auth: bool,
    /// The DER of the private key that the configuration signs with.
    pub key: Seq<u8>,
    /// The certificate chain presented to every client, leaf first.
    pub chain: Seq<Seq<u8>>,
    /// The protocol names offered in ALPN, most preferred first.
    pub alpn: Seq<Seq<u8>>,
    /// The amount of early data accepted.
    pub max_early_data_size: int,
}

/// What a QUIC transport configuration holds, as far as this library
/// sets it. `None` stands for a timer that is switched off.
pub struct TransportSettings {
    /// Milliseconds of silence before a keep-alive packet is sent.
    pub keep_alive_ms: Option<int>,
    /// Milliseconds of silence before the connection times out.
    pub max_idle_timeout_ms: Option<int>,
}

/// The HTTP/3 settings of a connection.
#[derive(Clone, Copy, Debug, PartialEq, Eq, Structural)]
pub struct Http3Settings {
    /// Extended CONNECT is accepted.
    pub enable_extended_connect: bool,
    /// WebTransport is announced to the peer.
    pub enable_webtransport: bool,
    /// HTTP/3 datagrams are announced to the peer.
    pub enable_datagram: bool,
    /// How many WebTransport sessions may run at once.
    pub max_webtransport_sessions: u64,
    /// Reserved ("grease") values are sent.
    pub send_grease: bool,
}

/// Why no TLS configuration could be built.
#[derive(Clone, Copy, Debug, PartialEq, Eq, Structural)]
pub enum TlsConfigError {
    /// The key is none that the TLS library can sign with.
    InvalidPrivateKey,
}

/// Whether `rustls` takes these DER bytes as a private key it can sign
/// with (RSA, ECDSA or Ed25519), as `ConfigBuilder::with_single_cert`
/// decides it.
pub uninterp spec fn signing_key_accepted(key_der: Seq<u8>) -> bool;

/// What a `rustls::ServerConfig` holds.
pub uninterp spec fn tls_settings(cfg: rustls::ServerConfig) -> TlsSettings;

/// What a `quinn::TransportConfig` holds.
pub uninterp spec fn transport_settings(transport: quinn::TransportConfig) -> TransportSettings;

/// The TLS settings inside a `quinn::ServerConfig`.
pub uninterp spec fn quic_tls_settings(cfg: quinn::ServerConfig) -> TlsSettings;

/// The transport settings inside a `quinn::ServerConfig`.
pub uninterp spec fn quic_transport_settings(cfg: quinn::ServerConfig) -> TransportSettings;

/// The settings inside a `sec_http3::server::Builder`.
pub uninterp spec fn builder_settings(builder: sec_http3::server::Builder) -> Http3Settings;

/// Runs the `rustls` server builder: safe default cipher suites and
/// key-exchange groups, TLS 1.3 alone, no client authentication, and one
/// certificate chain with its key (`ConfigBuilder::with_single_cert`).
/// The builder fails exactly where `rustls` does not accept the key; the
/// protocol step cannot fail, since the default suites include TLS 1.3
/// ones. The chain is stored as given and not looked into.
#[verifier::external_body]
fn tls13_config_with_single_cert(chain: Vec<Certificate>, key: PrivateKey) -> (r: Result<rustls::ServerConfig, rustls::Error>)
    ensures
        r is Ok <==> signing_key_accepted(key@),
        r matches Ok(cfg) ==> {
            &&& tls_settings(cfg).safe_defaults
            &&& tls_settings(cfg).tls13_only
            &&& !tls_settings(cfg).client_auth
            &&& tls_settings(cfg).key == key@
            &&& tls_settings(cfg).chain == chain_of(chain)
        },
{
    let chain = chain.into_iter().map(|c| rustls::Certificate(c.0)).collect();
    rustls::ServerConfig::builder()
        .with_safe_default_cipher_suites()
        .with_safe_default_kx_groups()
        .with_protocol_versions(&[&rustls::version::TLS13])?
        .with_no_client_auth()
        .with_single_cert(chain, rustls::PrivateKey(key.0))
}

/// Stores the ALPN protocol names in the public field `alpn_protocols`
/// of a `rustls::ServerConfig`. Nothing else changes.
#[verifier::external_body]
fn set_alpn_protocols(cfg: &mut rustls::ServerConfig, protocols: Vec<Vec<u8>>)
    ensures
        tls_settings(*final(cfg)) == (TlsSettings { alpn: blobs_of(protocols), ..tls_settings(*old(cfg)) }),
{
    cfg.alpn_protocols = protocols;
}

/// Stores the early-data limit in the public field `max_early_data_size`
/// of a `rustls::ServerConfig`. Nothing else changes.
#[verifier::external_body]
fn set_max_early_data_size(cfg: &mut rustls::ServerConfig, size: u32)
    ensures
        tls_settings(*final(cfg)) == (TlsSettings { max_early_data_size: size as int, ..tls_settings(*old(cfg)) }),
{
    cfg.max_early_data_size = size;
}

/// Calls `quinn::TransportConfig::default`. Both timers are set
/// afterwards, so nothing is said of the defaults.
#[verifier::external_body]
fn default_transport_config() -> quinn::TransportConfig {
    quinn::TransportConfig::default()
}

/// Calls `quinn::TransportConfig::keep_alive_interval` with the interval
/// in milliseconds. The method stores the value; the idle timeout stays.
#[verifier::external_body]
fn set_keep_alive_interval(transport: &mut quinn::TransportConfig, millis: u64)
    ensures
        transport_settings(*final(transport)) == (TransportSettings {
            keep_alive_ms: Some(millis as int),
            ..transport_settings(*old(transport))
        }),
{
    transport.keep_alive_interval(Some(std::time::Duration::from_millis(millis)));
}

/// Calls `quinn::TransportConfig::max_idle_timeout` with the timeout in
/// milliseconds, which `quinn` holds as a variable-length integer. The
/// method stores the value; the keep-alive interval stays.
#[verifier::external_body]
fn set_max_idle_timeout(transport: &mut quinn::TransportConfig, millis: u32)
    ensures
        transport_settings(*final(transport)) == (TransportSettings {
            max_idle_timeout_ms: Some(millis as int),
            ..transport_settings(*old(transport))
        }),
{
    transport.max_idle_timeout(Some(quinn::VarInt::from_u32(millis).into()));
}

/// Calls `quinn::ServerConfig::with_crypto`, which takes the TLS
/// configuration as it is and draws a random key for handshake tokens.
/// Of that key nothing is said.
#[verifier::external_body]
fn quic_config_with_crypto(tls: rustls::ServerConfig) -> (cfg: quinn::ServerConfig)
    ensures
        quic_tls_settings(cfg) == tls_settings(tls),
{
    quinn::ServerConfig::with_crypto(std::sync::Arc::new(tls))
}

/// Calls `quinn::ServerConfig::transport_config`, which replaces the
/// transport configuration and leaves the TLS configuration alone.
#[verifier::external_body]
fn set_transport_config(cfg: &mut quinn::ServerConfig, transport: quinn::TransportConfig)
    ensures
        quic_transport_settings(*final(cfg)) == transport_settings(transport),
        quic_tls_settings(*final(cfg)) == quic_tls_settings(*old(cfg)),
{
    cfg.transport_config(std::sync::Arc::new(transport));
}

/// Calls `sec_http3::server::builder`. Every setting that matters here
/// is set afterwards, so nothing is said of the defaults.
#[verifier::external_body]
fn new_http3_builder() -> sec_http3::server::Builder {
    sec_http3::server::builder()
}

/// Calls `Builder::enable_connect`, which stores the flag and nothing else.
#[verifier::external_body]
fn set_enable_connect(builder: &mut sec_http3::server::Builder, value: bool)
    ensures
        builder_settings(*final(builder)) == (Http3Settings {
            enable_extended_connect: value,
            ..builder_settings(*old(builder))
        }),
{
    builder.enable_connect(value);
}

/// Calls `Builder::enable_webtransport`, which stores the flag and nothing else.
#[verifier::external_body]
fn set_enable_webtransport(builder: &mut sec_http3::server::Builder, value: bool)
    ensures
        builder_settings(*final(builder)) == (Http3Settings {
            enable_webtransport: value,
            ..builder_settings(*old(builder))
        }),
{
    builder.enable_webtransport(value);
}

/// Calls `Builder::enable_datagram`, which stores the flag and nothing else.
#[verifier::external_body]
fn set_enable_datagram(builder: &mut sec_http3::server::Builder, value: bool)
    ensures
        builder_settings(*final(builder)) == (Http3Settings {
            enable_datagram: value,
            ..builder_settings(*old(builder))
        }),
{
    builder.enable_datagram(value);
}

/// Calls `Builder::max_webtransport_sessions`, which stores the limit
/// and nothing else.
#[verifier::external_body]
fn set_max_webtransport_sessions(builder: &mut sec_http3::server::Builder, value: u64)
    ensures
        builder_settings(*final(builder)) == (Http3Settings {
            max_webtransport_sessions: value,
            ..builder_settings(*old(builder))
        }),
{
    builder.max_webtransport_sessions(value);
}

/// Calls `Builder::send_grease`, which stores the flag and nothing else.
#[verifier::external_body]
fn set_send_grease(builder: &mut sec_http3::server::Builder, value: bool)
    ensures
        builder_settings(*final(builder)) == (Http3Settings {
            send_grease: value,
            ..builder_settings(*old(builder))
        }),
{
    builder.send_grease(value);
}

/// The protocol name `h3`.
pub open spec fn h3() -> Seq<u8> {
    seq![104u8, 51u8]
}

/// The protocol name `h3-32`.
pub open spec fn h3_32() -> Seq<u8> {
    seq![104u8, 51u8, 45u8, 51u8, 50u8]
}

/// The protocol name `h3-31`.
pub open spec fn h3_31() -> Seq<u8> {
    seq![104u8, 51u8, 45u8, 51u8, 49u8]
}

/// The protocol name `h3-30`.
pub open spec fn h3_30() -> Seq<u8> {
    seq![104u8, 51u8, 45u8, 51u8, 48u8]
}

/// The protocol name `h3-29`.
pub open spec fn h3_29() -> Seq<u8> {
    seq![104u8, 51u8, 45u8, 50u8, 57u8]
}

/// The protocol name `h2`.
pub open spec fn h2() -> Seq<u8> {
    seq![104u8, 50u8]
}

/// The protocol name `http/1.1`.
pub open spec fn http11() -> Seq<u8> {
    seq![104u8, 116u8, 116u8, 112u8, 47u8, 49u8, 46u8, 49u8]
}

/// The protocol names that the endpoint offers in ALPN, most preferred
/// first: HTTP/3 and its drafts 32 down to 29.
pub open spec fn alpn_list() -> Seq<Seq<u8>> {
    seq![h3(), h3_32(), h3_31(), h3_30(), h3_29()]
}

/// Whether a peer that offers `offered` names at least one protocol that
/// is in `advertised`.
pub open spec fn alpn_overlap(advertised: Seq<Seq<u8>>, offered: Seq<Seq<u8>>) -> bool {
    exists|i: int| 0 <= i < offered.len() && advertised.contains(#[trigger] offered[i])
}

/// The TLS settings of the endpoint for a given identity.
pub open spec fn standard_tls(key: Seq<u8>, chain: Seq<Seq<u8>>) -> TlsSettings {
    TlsSettings {
        safe_defaults: true,
        tls13_only: true,
        client_auth: false,
        key,
        chain,
        alpn: alpn_list(),
        max_early_data_size: MAX_EARLY_DATA_SIZE as int,
    }
}

/// The transport settings of the endpoint.
pub open spec fn standard_transport() -> TransportSettings {
    TransportSettings {
        keep_alive_ms: Some(KEEP_ALIVE_INTERVAL_MS as int),
        max_idle_timeout_ms: Some(MAX_IDLE_TIMEOUT_MS as int),
    }
}

/// Whether the keep-alive timer is on and fires before the idle timer
/// does, so that a peer that is connected but silent is pinged before it
/// times out.
pub open spec fn keeps_idle_peers_alive(settings: TransportSettings) -> bool {
    match (settings.keep_alive_ms, settings.max_idle_timeout_ms) {
        (Some(keep_alive), Some(idle)) => 0 < keep_alive < idle,
        (Some(keep_alive), None) => 0 < keep_alive,
        (None, _) => false,
    }
}

/// The HTTP/3 settings of every connection: extended CONNECT,
/// WebTransport and datagrams on, one session at most, grease on.
pub open spec fn standard_http3() -> Http3Settings {
    Http3Settings {
        enable_extended_connect: true,
        enable_webtransport: true,
        enable_datagram: true,
        max_webtransport_sessions: MAX_WEBTRANSPORT_SESSIONS,
        send_grease: true,
    }
}

impl TlsConfigError {
    /// The text that describes the error.
    pub open spec fn message_text(self) -> Seq<char> {
        "invalid private key"@
    }

    /// A line for the log.
    pub fn message(&self) -> (text: String)
        ensures
            text@ == self.message_text(),
    {
        "invalid private key".to_owned()
    }
}

impl Http3Settings {
    /// The settings that every connection of the echo server gets.
    pub fn webtransport() -> (settings: Http3Settings)
        ensures
            settings == standard_http3(),
    {
        Http3Settings {
            enable_extended_connect: true,
            enable_webtransport: true,
            enable_datagram: true,
            max_webtransport_sessions: MAX_WEBTRANSPORT_SESSIONS,
            send_grease: true,
        }
    }
}

/// The protocol names of `alpn_list`, as bytes to hand to the TLS layer.
pub fn alpn_protocols() -> (protocols: Vec<Vec<u8>>)
    ensures
        blobs_of(protocols) == alpn_list(),
{
    let mut protocols: Vec<Vec<u8>> = Vec::new();
    protocols.push(vec![104u8, 51u8]);
    protocols.push(vec![104u8, 51u8, 45u8, 51u8, 50u8]);
    protocols.push(vec![104u8, 51u8, 45u8, 51u8, 49u8]);
    protocols.push(vec![104u8, 51u8, 45u8, 51u8, 48u8]);
    protocols.push(vec![104u8, 51u8, 45u8, 50u8, 57u8]);
    proof {
        assert(protocols@[0]@ == h3());
        assert(protocols@[1]@ == h3_32());
        assert(protocols@[2]@ == h3_31());
        assert(protocols@[3]@ == h3_30());
        assert(protocols@[4]@ == h3_29());
        assert(blobs_of(protocols) == alpn_list());
    }
    protocols
}

/// Builds the TLS configuration of the endpoint for one identity.
///
/// It succeeds exactly where the TLS library accepts the key. The
/// configuration then enables TLS 1.3 alone with the safe default suites
/// and groups, asks no client for a certificate, presents the chain as
/// given, offers the HTTP/3 protocol names and accepts early data up to
/// the largest limit.
pub fn tls_server_config(key: PrivateKey, chain: Vec<Certificate>) -> (r: Result<rustls::ServerConfig, TlsConfigError>)
    ensures
        r is Ok <==> signing_key_accepted(key@),
        r matches Ok(cfg) ==> tls_settings(cfg) == standard_tls(key@, chain_of(chain)),
        r matches Err(e) ==> e == TlsConfigError::InvalidPrivateKey,
{
    match tls13_config_with_single_cert(chain, key) {
        Ok(cfg) => {
            let mut cfg = cfg;
            set_max_early_data_size(&mut cfg, MAX_EARLY_DATA_SIZE);
            set_alpn_protocols(&mut cfg, alpn_protocols());
            Ok(cfg)
        },
        Err(_) => Err(TlsConfigError::InvalidPrivateKey),
    }
}

/// Builds the transport configuration of the endpoint: a keep-alive
/// packet after two seconds of silence, a timeout after ten.
pub fn transport_config() -> (transport: quinn::TransportConfig)
    ensures
        transport_settings(transport) == standard_transport(),
        keeps_idle_peers_alive(transport_settings(transport)),
{
    let mut transport = default_transport_config();
    set_keep_alive_interval(&mut transport, KEEP_ALIVE_INTERVAL_MS);
    set_max_idle_timeout(&mut transport, MAX_IDLE_TIMEOUT_MS);
    transport
}

/// Wraps a TLS configuration into the QUIC server configuration of the
/// endpoint, with the endpoint's transport timers.
pub fn quic_server_config(tls: rustls::ServerConfig) -> (cfg: quinn::ServerConfig)
    ensures
        quic_tls_settings(cfg) == tls_settings(tls),
        quic_transport_settings(cfg) == standard_transport(),
        keeps_idle_peers_alive(quic_transport_settings(cfg)),
{
    let mut cfg = quic_config_with_crypto(tls);
    set_transport_config(&mut cfg, transport_config());
    cfg
}

/// Builds the whole server configuration for one identity, or says why
/// the identity cannot be used.
pub fn server_config(key: PrivateKey, chain: Vec<Certificate>) -> (r: Result<quinn::ServerConfig, TlsConfigError>)
    ensures
        r is Ok <==> signing_key_accepted(key@),
        r matches Ok(cfg) ==> {
            &&& quic_tls_settings(cfg) == standard_tls(key@, chain_of(chain))
            &&& quic_transport_settings(cfg) == standard_transport()
            &&& keeps_idle_peers_alive(quic_transport_settings(cfg))
        },
        r matches Err(e) ==> e == TlsConfigError::InvalidPrivateKey,
{
    match tls_server_config(key, chain) {
        Ok(tls) => Ok(quic_server_config(tls)),
        Err(e) => Err(e),
    }
}

/// Builds the HTTP/3 connection builder that holds the given settings.
pub fn http3_builder(settings: &Http3Settings) -> (builder: sec_http3::server::Builder)
    ensures
        builder_settings(builder) == *settings,
{
    let mut builder = new_http3_builder();
    set_enable_webtransport(&mut builder, settings.enable_webtransport);
    set_enable_connect(&mut builder, settings.enable_extended_connect);
    set_enable_datagram(&mut builder, settings.enable_datagram);
    set_max_webtransport_sessions(&mut builder, settings.max_webtransport_sessions);
    set_send_grease(&mut builder, settings.send_grease);
    builder
}

/// A peer that offers nothing but `h2` and `http/1.1` names no protocol
/// that the endpoint advertises.
pub proof fn lemma_alpn_excludes_http2_and_http1(offered: Seq<Seq<u8>>)
    requires
        forall|i: int| 0 <= i < offered.len() ==> offered[i] == h2() || offered[i] == http11(),
    ensures
        !alpn_overlap(alpn_list(), offered),
{
    assert forall|i: int| 0 <= i < offered.len() implies !alpn_list().contains(#[trigger] offered[i]) by {
        let p = offered[i];
        assert(p.len() == 2 || p.len() == 8);
        assert(p.len() == 2 ==> p[1] == 50u8);
        assert forall|j: int| 0 <= j < alpn_list().len() implies alpn_list()[j] != p by {
            let q = alpn_list()[j];
            if j == 0 {
                assert(q[1] == 51u8);
            } else {
                assert(q.len() == 5);
            }
        }
    }
}

/// A peer that offers `h3`, among whatever else, names a protocol that
/// the endpoint advertises.
pub proof fn lemma_alpn_includes_h3(offered: Seq<Seq<u8>>)
    requires
        offered.contains(h3()),
    ensures
        alpn_overlap(alpn_list(), offered),
{
    let i = choose|i: int| 0 <= i < offered.len() && offered[i] == h3();
    assert(alpn_list()[0] == h3());
    assert(alpn_list().contains(offered[i]));
}

} // verus!
