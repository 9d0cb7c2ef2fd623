[package]
name = "vector-app"
version = "0.1.0"
edition = "2021"
publish = false

[dependencies]
anyhow = "1"
bytes = "1"
chrono = "0.4"
fuzzy-matcher = "0.3"
objc2 = "0.6"
objc2-app-kit = "0.3"
objc2-foundation = "0.3"
parking_lot = "0.12"
raw-window-handle = "0.6"
regex = "1"
tokio = { version = "1", features = ["rt-multi-thread", "sync", "time", "macros"] }
tokio-util = "0.7"
tracing = "0.1"
tracing-subscriber = { version = "0.3", features = ["env-filter"] }
wgpu = "*"
winit = "0.30"
zeroize = "1"
