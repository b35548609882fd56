[package]
name = "anilistarr-rs"
version = "0.1.0"
edition = "2021"
publish = false

[dependencies]
axum = "0.7"
futures = "0.3"
governor = "0.6"
graphql_client = { version = "0.14", default-features = false }
http = "1"
lmdb = "0.8"
nonzero_ext = "0.3"
opentelemetry = "0.23"
opentelemetry-appender-tracing = "0.4"
opentelemetry-otlp = { version = "0.16", default-features = false, features = ["http-proto", "trace", "metrics", "logs"] }
opentelemetry-stdout = { version = "0.4", features = ["trace", "metrics", "logs"] }
opentelemetry_sdk = { version = "0.23", features = ["rt-tokio", "logs", "metrics"] }
redis = "0.25"
reqwest = { version = "0.11", default-features = false, features = ["json", "blocking", "rustls-tls"] }
serde = { version = "1", features = ["derive"] }
serde_json = "1"
signal-hook = "0.3"
thiserror = "1"
tokio = { version = "1", features = ["full"] }
tower = "0.4"
tower-http = { version = "0.5", features = ["compression-gzip", "set-header"] }
tracing = "0.1"
tracing-opentelemetry = "0.24"
tracing-subscriber = "0.3"
