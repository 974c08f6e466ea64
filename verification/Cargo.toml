[package]
name = "relay_hub"
version = "0.1.0"
edition = "2021"
publish = false

[dependencies]
tokio = { version = "*", features = ["full"] }
bytes = "*"
serde_json = "*"
axum = { version = "*", features = ["ws"] }
futures = "*"
srt-tokio = "*"
tracing = "*"
tracing-subscriber = { version = "*", features = ["env-filter"] }
uuid = { version = "*", features = ["v4"] }
