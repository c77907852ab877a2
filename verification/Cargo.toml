[package]
name = "freq_gantt"
version = "0.1.0"
edition = "2021"
publish = false

[dependencies]
egui = "0.31"
egui_plot = "0.32"
eframe = { version = "0.31", default-features = false, features = ["default_fonts", "glow", "x11", "wayland"] }
crossbeam-queue = "0.3"
env_logger = "0.11"
serde = { version = "1", features = ["derive"] }
serde_json = "1"
subprocess = "0.2"
