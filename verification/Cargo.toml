[package]
name = "aqbot_agent_runtime"
version = "0.1.0"
edition = "2021"
publish = false

[dependencies]
chrono = "=0.4.45"
dirs = "=5.0.1"
sea-orm = { version = "=1.1.20", default-features = false, features = ["macros"] }
serde = { version = "=1.0.229", features = ["derive"] }
serde_json = "=1.0.154"
sha2 = "=0.10.9"
tokio = { version = "=1.54.1", features = ["macros", "process", "rt", "sync", "time"] }
tracing = "=0.1.44"
