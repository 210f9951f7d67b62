[package]
name = "event_dispatch"
version = "0.1.0"
edition = "2021"
publish = false

[dependencies]
amq-protocol-types = "7"
amq-protocol-uri = "7"
anyhow = "1"
axum = "0.7"
axum-extra = { version = "0.9", features = ["typed-header"] }
clap = { version = "4", features = ["derive"] }
configparser = "3"
console-subscriber = "*"
constant_time_eq = "0.3"
deadpool-postgres = "*"
django-signing = "*"
futures-lite = "2"
gravatar-rs = "*"
hex = "0.4"
hmac = "0.12"
hyper = { version = "1", features = ["http1", "server"] }
hyper-util = { version = "0.1", features = ["tokio"] }
lapin = "2"
serde = { version = "1", features = ["derive"] }
serde_json = { version = "1", features = ["raw_value"] }
serde_repr = "0.1"
sha1 = "0.10"
sha2 = "0.10"
tokio = { version = "1", features = ["full"] }
tokio-executor-trait = "2"
tokio-postgres = "0.7"
tokio-reactor-trait = "1"
tower-service = "0.3"
tracing = "0.1"
url = "2"
