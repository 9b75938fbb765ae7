[package]
name = "hevc_player"
version = "0.1.0"
edition = "2021"
publish = false

[dependencies]
serde_json = "=1.0.154"
egui = "0.27"
ffmpeg-next = "=7.1.0"
rfd = "=0.14.1"
