[package]
name = "imap_session"
version = "0.1.0"
edition = "2021"
publish = false

[dependencies]
bytes = "0.4"
futures = "0.1"
futures-state-stream = "0.1"
imap-proto = "0.4"
native-tls = "0.2"
tokio = "0.1"
tokio-core = "0.1"
tokio-io = "0.1"
tokio-tls = "0.2"
