[package]
name = "aegis"
version = "0.1.0"
edition = "2021"
publish = false

[dependencies]
regex = "=1.13.1"
url = "=2.5.8"
actix-web = "=4.18.1"
reqwest = { version = "=0.13.5", default-features = false }
tokio = { version = "=1.54.1", features = ["full"] }
serde = { version = "=1.0.229", features = ["derive"] }
serde_yaml = "=0.9.34"
thiserror = "=2.0.21"
tracing = "=0.1.44"
tracing-subscriber = { version = "=0.3.23", features = ["env-filter"] }
clap = { version = "=4.6.7", features = ["derive"] }
bb8 = "=0.9.1"
bb8-redis = "=0.26.0"
opentelemetry = "=0.33.1"
opentelemetry-otlp = { version = "=0.33.1", features = ["grpc-tonic", "metrics"] }
opentelemetry_sdk = { version = "=0.33.1", features = ["rt-tokio"] }
