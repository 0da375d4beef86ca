//! The core of a WebTransport echo server: loading the TLS identity,
//! configuring the QUIC endpoint, dispatching HTTP/3 requests and running
//! the echo loop of a session. The library decides; the program around
//! it performs the reads, the waits and the sends.

pub mod config;
pub mod credentials;
pub mod dispatch;
pub mod endpoint;
pub mod errors;
pub mod session;
