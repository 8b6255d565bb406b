[package]
name = "marker_canvas"
version = "0.1.0"
edition = "2021"
publish = false

[dependencies]
eframe = { version = "0.21", default-features = false, features = ["glow", "default_fonts"] }
egui = { version = "0.21", default-features = false }
env_logger = { version = "0.10", default-features = false }
