[package]
name = "trigger_http"
version = "0.1.0"
edition = "2021"
publish = false

[dependencies]
anyhow = "*"
futures = "*"
http = "*"
hyper = "*"
opentelemetry = "*"
tokio = { version = "*", features = ["rt", "rt-multi-thread", "sync", "time"] }
tracing = "*"
tracing-opentelemetry = "*"
