[package]
name = "agent_ffi"
version = "0.1.0"
edition = "2021"
publish = false

[dependencies]
playit-agent-core = "*"
playit-api-client = "*"
serde = { version = "1", features = ["derive"] }
serde_json = "1"
tokio = { version = "1", features = ["rt-multi-thread", "sync", "time", "macros"] }
tracing = "0.1"
tracing-subscriber = "0.3"
