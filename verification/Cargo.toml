[package]
name = "telemetry_rust"
version = "0.1.0"
edition = "2021"
publish = false

[dependencies]
opentelemetry = "0.30"
opentelemetry_sdk = "0.30"
opentelemetry-otlp = { version = "0.30", default-features = false, features = ["grpc-tonic", "http-json", "reqwest-blocking-client", "trace", "metrics", "logs"] }
opentelemetry-appender-tracing = "0.30"
tracing = "0.1"
tracing-opentelemetry = "0.31"
tracing-subscriber = { version = "0.3", features = ["env-filter", "chrono"] }
pyroscope = "0.5"
pyroscope_pprofrs = "0.2"
tokio = { version = "1", features = ["rt", "rt-multi-thread", "time"] }
