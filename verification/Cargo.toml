[package]
name = "game_renderer"
version = "0.1.0"
edition = "2021"
publish = false

[dependencies]
anyhow = "1"
bytemuck = { version = "1", features = ["derive"] }
log = "0.4"
pollster = "0.4"
pretty_env_logger = "0.5"
wgpu = "*"
winit = "0.30"
