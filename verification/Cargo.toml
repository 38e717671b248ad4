[package]
name = "localsend_core"
version = "0.1.0"
edition = "2021"
publish = false

[dependencies]
uuid = { version = "1", features = ["v4"] }
serde = { version = "1", features = ["derive"] }
serde_json = "1"
tokio = { version = "1", features = ["full"] }
tokio-util = { version = "0.7", features = ["io"] }
axum = "0.6"
axum-server = { version = "0.5", features = ["tls-rustls"] }
futures = "0.3"
rcgen = "0.11"
network-interface = "1"
console = "0.15"
dialoguer = "0.11"
indicatif = "0.17"
tracing = "0.1"
tracing-subscriber = { version = "0.3", features = ["env-filter"] }
tracing-log = "0.2"
console-subscriber = "0.4"
