[package]
name = "sarne"
version = "0.1.0"
edition = "2021"
publish = false

[dependencies]
anyhow = "1"
chrono = "0.4"
clap = { version = "4", features = ["derive"] }
deadpool-postgres = "0.14"
futures = "0.3"
hex = "0.4"
hyper-tls = "0.6"
hyper-util = { version = "0.1", features = ["client-legacy", "http1", "http2", "tokio"] }
prost = "0.14"
rand = "0.9"
serde = { version = "1", features = ["derive"] }
sha2 = "0.10"
tokio = { version = "1", features = ["full"] }
tokio-postgres = { version = "0.7", features = ["with-chrono-0_4"] }
tokio-util = "0.7"
toml = "0.9"
tonic = "0.14"
tonic-prost = "0.14"
tower = { version = "0.5", features = ["util"] }
tracing = "0.1"
tracing-journald = "0.3"
tracing-subscriber = { version = "0.3", features = ["env-filter"] }
