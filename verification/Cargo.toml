[package]
name = "eth_analysis"
version = "0.1.0"
edition = "2021"
publish = false

[dependencies]
chrono = { version = "=0.4.45", features = ["serde"] }
sha1 = "=0.10.7"
base64 = "=0.13.1"
etag = "=4.0.0"
num-bigint = "=0.4.8"
serde = { version = "=1.0.229", features = ["derive"] }
serde_json = "=1.0.154"
anyhow = "=1.0.104"
futures = "=0.3.34"
lazy_static = "=1.5.1"
tracing = "=0.1.44"
tracing-subscriber = "=0.3.23"
tokio = { version = "=1.54.1", features = ["macros", "rt-multi-thread"] }
axum = "=0.5.17"
reqwest = { version = "=0.11.27", default-features = false }
sqlx = { version = "=0.6.3", features = ["postgres", "runtime-tokio-rustls", "json", "chrono"] }
