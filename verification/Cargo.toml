[package]
name = "camera_voice"
version = "0.1.0"
edition = "2021"
publish = false

[dependencies]
adk-realtime = "*"
axum = { version = "0.8", features = ["ws"] }
base64 = "0.22"
futures = "0.3"
serde = { version = "1", features = ["derive"] }
serde_json = "1"
tokio = { version = "1", features = ["macros", "rt-multi-thread", "sync", "time"] }
tracing = "0.1"
