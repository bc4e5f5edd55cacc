[package]
name = "image_viewer"
version = "0.1.0"
edition = "2021"
publish = false

[dependencies]
image = { version = "0.24", default-features = false, features = ["png", "jpeg"] }
wgpu = "0.17"
winit = "0.28"
egui = "0.23"
egui_wgpu_backend = "0.26"
egui_winit_platform = "0.20"
futures = { version = "0.3", features = ["thread-pool"] }
pollster = "0.3"
bytemuck = { version = "1", features = ["derive"] }
anyhow = "1"
env_logger = "0.10"
log = "0.4"
instant = "0.1"
rfd = "0.12"
cgmath = "0.18"
