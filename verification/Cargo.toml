[package]
name = "s2tui"
version = "0.1.0"
edition = "2021"
publish = false

[dependencies]
tokio = { version = "1", default-features = false, features = ["sync", "rt", "rt-multi-thread", "time"] }
parking_lot = "0.12"
serde = { version = "1", features = ["derive"] }
serde_json = "1"
thiserror = "1"
tracing = "0.1"
tracing-subscriber = { version = "0.3", features = ["env-filter"] }
cpal = "0.15"
whisper-rs = "0.14"
ash = "0.38"
raw-window-handle = "0.6"
objc2 = "0.6"
block2 = "0.6"
objc2-av-foundation = "0.3"
objc2-foundation = "0.3"
