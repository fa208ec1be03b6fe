[package]
name = "tomatentimer"
version = "0.1.0"
edition = "2021"
publish = false

[dependencies]
eframe = { version = "=0.24.1", default-features = false, features = ["default_fonts", "glow", "wayland", "web_screen_reader", "x11"] }
egui_extras = { version = "=0.24.2", features = ["file", "image"] }
env_logger = "=0.10.2"
