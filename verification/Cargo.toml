[package]
name = "mitmproxy_desktop"
version = "0.1.0"
edition = "2021"
publish = false

[dependencies]
anyhow = "1"
directories = "5"
hudsucker = { version = "0.23", default-features = false, features = ["openssl-ca", "rustls-client"] }
iced = { version = "0.10", default-features = false }
once_cell = "1"
rcgen = "0.12"
serde = { version = "1", features = ["derive"] }
serde_json = "1"
tokio = { version = "1", features = ["fs", "macros", "rt-multi-thread", "sync"] }
tracing = "0.1"
tracing-subscriber = "0.3"
