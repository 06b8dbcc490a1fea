[package]
name = "cpu_monitor"
version = "0.1.0"
edition = "2021"
publish = false

[dependencies]
axum = { version = "0.6", features = ["ws"] }
tokio = { version = "1", features = ["full"] }
sysinfo = "0.29"
tracing-subscriber = "0.3"
