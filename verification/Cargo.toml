[package]
name = "lumen"
version = "0.1.0"
edition = "2021"
publish = false

[dependencies]
anyhow = "1"
bytemuck = { version = "1", features = ["derive"] }
cgmath = "0.18"
env_logger = "0.11"
glam = "0.30"
instant = "0.1"
log = "0.4"
pollster = "0.4"
tobj = { version = "4", features = ["async"] }
wgpu = "27"
winit = "0.30"
