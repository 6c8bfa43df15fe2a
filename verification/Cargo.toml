[package]
name = "screenshare_agent"
version = "0.1.0"
edition = "2021"
publish = false

[dependencies]
rand = "0.8"
serde_json = "1"
tokio = { version = "1", features = ["sync", "time", "rt", "macros"] }
