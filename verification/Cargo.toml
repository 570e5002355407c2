[package]
name = "video_player"
version = "0.1.0"
edition = "2021"
publish = false

[dependencies]
eframe = { version = "0.29", default-features = false, features = ["default_fonts", "glow", "x11"] }
egui = "0.29"
glib = "0.20"
gstreamer = "0.23"
gstreamer-app = "0.23"
gstreamer-video = "0.23"
rfd = "0.15"
