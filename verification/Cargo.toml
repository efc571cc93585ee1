[package]
name = "music_core"
version = "0.1.0"
edition = "2021"
publish = false

[dependencies]
base64 = "0.22"
serde_json = "1"
serde = { version = "1", features = ["derive"] }
tokio = { version = "1", features = ["rt-multi-thread", "sync", "macros", "time"] }
reqwest = { version = "0.12", default-features = false }
rodio = "0.20"
