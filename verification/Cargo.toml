[package]
name = "zeroclaw"
version = "0.1.0"
edition = "2021"
publish = false

[dependencies]
anyhow = "=1.0.104"
async-trait = "=0.1.92"
chrono = "=0.4.45"
opentelemetry = { version = "=0.31.0", default-features = false, features = ["trace", "metrics"] }
opentelemetry-otlp = { version = "=0.31.1", default-features = false, features = ["trace", "metrics", "http-proto", "reqwest-blocking-client"] }
opentelemetry_sdk = { version = "=0.31.0", default-features = false, features = ["trace", "metrics"] }
reqwest = { version = "=0.12.28", default-features = false, features = ["json", "rustls-tls"] }
serde = { version = "=1.0.229", features = ["derive"] }
serde_json = "=1.0.154"
tracing = "=0.1.44"
uuid = { version = "=1.29.0", features = ["v4"] }

[dev-dependencies]
parking_lot = "=0.12.5"
