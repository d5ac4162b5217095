[package]
name = "message_relay"
version = "0.1.0"
edition = "2021"
publish = false

[dependencies]
tokio = { version = "*", features = ["sync", "rt-multi-thread", "time", "net", "macros"] }
chrono = "*"
axum = "*"
color-eyre = "*"
