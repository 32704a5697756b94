[package]
name = "thermal_monitor"
version = "1.3.0"
edition = "2021"
publish = false

[dependencies]
eframe = { version = "0.29", default-features = false, features = ["default_fonts", "glow", "wayland", "x11"] }
egui_plot = "0.29"
