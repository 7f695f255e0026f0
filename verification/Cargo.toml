[package]
name = "video_player"
version = "0.1.0"
edition = "2021"
publish = false

[dependencies]
relm4 = { version = "*", features = ["libadwaita"] }
rfd = "*"
ffmpeg-next = "*"
