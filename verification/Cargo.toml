[package]
name = "platy_recorder"
version = "0.1.0"
edition = "2021"
publish = false

[dependencies]
tokio = { version = "1", features = ["sync", "rt-multi-thread", "macros", "time", "process", "io-util"] }
serde = { version = "1", features = ["derive"] }
log = "0.4"
cpal = "0.15"
coreaudio-rs = "*"
coreaudio-sys = "*"
core-foundation-sys = "*"
ffmpeg-sidecar = "*"
