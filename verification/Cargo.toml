[package]
name = "actor_telemetry"
version = "0.1.0"
edition = "2021"
publish = false

[dependencies]
anyhow = "=1.0.104"
http = "=1.5.0"
opentelemetry = "=0.28.0"
opentelemetry_sdk = "=0.28.0"
opentelemetry-otlp = "=0.28.0"
parking_lot = "=0.12.5"
tokio = { version = "=1.54.1", features = ["rt", "time"] }
tracing = "=0.1.44"
tracing-opentelemetry = "=0.29.0"
uuid = { version = "=1.29.0", features = ["v4"] }

[dev-dependencies]
rusqlite = { version = "*", features = ["bundled"] }
