[package]
name = "loom_server"
version = "0.1.0"
edition = "2021"
publish = false

[dependencies]
axum = { version = "=0.8.9", features = ["ws"] }
bytes = "=1.12.1"
http-body-util = "=0.1.5"
serde = { version = "=1.0.229", features = ["derive"] }
serde_json = "=1.0.154"
tokio = { version = "=1.54.1", features = ["rt-multi-thread", "macros", "sync", "time", "signal", "process", "net"] }
