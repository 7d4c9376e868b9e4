[package]
name = "servicelib"
version = "0.1.0"
edition = "2021"
publish = false

[dependencies]
async-trait = "0.1"
axum = "0.8"
chrono = "0.4"
chrono-tz = "0.10"
croner = "*"
futures = "0.3"
rdkafka = "*"
reqwest = { version = "0.12", default-features = false }
serde = { version = "1", features = ["derive"] }
tokio = { version = "1", features = ["full"] }
tokio-util = { version = "0.7", features = ["rt", "io"] }
tonic = "*"
tracing = "0.1"
tracing-opentelemetry = "*"
