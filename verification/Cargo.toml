[package]
name = "video_player"
version = "0.1.0"
edition = "2021"
publish = false

[dependencies]
anyhow = "=1.0.104"
crossbeam-channel = "=0.5.17"
egui = "=0.27.2"
ffmpeg-next = "=7.1.0"
parking_lot = "=0.12.5"
rodio = { version = "=0.17.3", default-features = false }
