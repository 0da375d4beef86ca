[package]
name = "webtransport-echo-server"
version = "0.1.0"
edition = "2021"
publish = false

[dependencies]
actix-rt = "=2.15.0"
actix-web = { version = "=4.18.1", default-features = false }
anyhow = "=1.0.104"
bytes = "=1.12.1"
http = "=0.2.12"
quinn = "=0.10.2"
rustls = "=0.21.12"
rustls-pemfile = "=1.0.4"
sec-http3 = "=0.1.2"
tokio = { version = "=1.54.1", features = ["full"] }
tracing = "=0.1.44"
tracing-subscriber = { version = "=0.3.23", features = ["env-filter"] }

[dev-dependencies]
quinn-proto = { version = "=0.10.6", default-features = false, features = ["tls-rustls"] }
