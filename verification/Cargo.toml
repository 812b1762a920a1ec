[package]
name = "codex_api"
version = "0.1.0"
edition = "2021"
publish = false

[dependencies]
serde_json = "1"
serde = { version = "1", features = ["derive"] }
chrono = { version = "0.4", default-features = false, features = ["clock"] }
tokio = { version = "1", features = ["rt", "sync", "time"] }
futures = "0.3"
eventsource-stream = "0.2"
bytes = "1"
http = "1"
