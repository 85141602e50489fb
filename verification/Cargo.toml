[package]
name = "whisper_core"
version = "0.1.0"
edition = "2021"
publish = false

[dependencies]
hound = "3"
whisper-rs = "*"
serde = { version = "1", features = ["derive"] }
thiserror = "*"
tracing = "*"
