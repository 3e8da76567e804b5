[package]
name = "liter_llm"
version = "0.1.0"
edition = "2021"
publish = false

[dependencies]
ahash = "=0.8.12"
base64 = "=0.22.1"
bytes = "=1.12.1"
dashmap = "=6.2.1"
futures-core = "=0.3.34"
futures-util = "=0.3.34"
regex = "=1.13.1"
serde = { version = "=1.0.229", features = ["derive"] }
serde_json = "=1.0.154"
thiserror = "=2.0.21"
tokio = { version = "=1.54.1", features = ["rt", "sync", "time", "macros"] }
tower = { version = "=0.5.3", features = ["util", "limit", "ready-cache", "discover"] }
rust_decimal = "=1.43.0"
reqwest = { version = "=0.12.28", default-features = false }
opentelemetry = "=0.27.1"
opendal = { version = "=0.59.5", default-features = false, features = ["services-memory"] }
tracing = "=0.1.44"
tracing-opentelemetry = "0.28"
