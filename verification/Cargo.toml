[package]
name = "simple-api-rs"
version = "0.1.0"
edition = "2021"
publish = false

[dependencies]
chrono = "=0.4.45"
clap = { version = "4", features = ["derive"] }
oidc-jwt-validator = "0.2"
opentelemetry = "0.30"
opentelemetry-otlp = { version = "0.30", features = ["grpc-tonic"] }
opentelemetry_sdk = "0.30"
poem = { version = "=3.1.12", features = ["prometheus", "opentelemetry"] }
prometheus = "=0.14.0"
rand = "=0.8.8"
reqwest = "0.11"
serde = { version = "1", features = ["derive"] }
serde_json = "=1.0.154"
serde_yaml = "0.9"
tokio = { version = "1", features = ["full"] }
tracing = "0.1"
tracing-opentelemetry = "0.31"
tracing-subscriber = "0.3"
