[package]
name = "rust_otel_setup"
version = "0.1.0"
edition = "2021"
publish = false

[dependencies]
anyhow = "1"
async-trait = "0.1"
google-cloud-auth = "*"
hyper-util = { version = "0.1", features = ["client-legacy", "http1", "tokio"] }
opentelemetry = "0.29"
opentelemetry-appender-tracing = "0.29"
opentelemetry-http = { version = "0.29", features = ["hyper"] }
opentelemetry-otlp = { version = "0.29", features = ["grpc-tonic", "http-proto", "tls", "tls-roots", "logs", "trace"] }
opentelemetry_sdk = { version = "0.29", features = ["rt-tokio"] }
opentelemetry-stdout = "0.29"
reqwest = { version = "0.12", default-features = false, features = ["rustls-tls"] }
tokio = { version = "1", features = ["rt-multi-thread", "sync", "macros"] }
tonic = { version = "0.12", features = ["tls", "tls-native-roots"] }
tracing-loki = { version = "0.2", default-features = false, features = ["compat-0-2-1", "rustls"] }
tracing-opentelemetry = "0.30"
tracing-subscriber = { version = "0.3", features = ["env-filter", "fmt"] }
