[package]
name = "bakopa"
version = "0.1.0"
edition = "2021"
publish = false

[dependencies]
uuid = { version = "1", features = ["v4"] }
serde = { version = "1", features = ["derive"] }
serde_json = "1"
thiserror = "*"
anyhow = "1"
tokio = { version = "1", features = ["rt", "rt-multi-thread", "macros", "net", "sync", "time", "signal"] }
tokio-tungstenite = "*"
futures-util = "0.3"
tracing = "0.1"
tracing-subscriber = { version = "0.3", features = ["env-filter", "fmt"] }
bevy_ecs = { version = "*", default-features = false }
