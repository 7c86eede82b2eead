[package]
name = "render_core"
version = "0.1.0"
edition = "2021"
publish = false

[dependencies]
bytemuck = "1"
env_logger = "0.9"
image = { version = "0.24", default-features = false, features = ["png"] }
pollster = "0.2"
wgpu = "0.12"
winit = "0.26"
