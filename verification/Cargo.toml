[package]
name = "planet_sim"
version = "0.1.0"
edition = "2021"
publish = false

[dependencies]
anyhow = "1"
bytemuck = { version = "1", features = ["derive"] }
colorous = "1"
env_logger = "0.10"
glam = { version = "0.24", features = ["bytemuck"] }
pollster = "0.3"
slotmap = "1"
wgpu = "0.16"
winit = "0.28"
