[package]
name = "scap"
version = "0.1.0"
edition = "2021"
publish = false

[dependencies]
apple-sys = { version = "*", features = ["CoreMedia", "ScreenCaptureKit"] }
core-graphics = "*"
core-video-sys = "*"
screencapturekit = "0.2"
sysinfo = "*"
