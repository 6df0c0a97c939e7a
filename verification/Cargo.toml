[package]
name = "scene_renderer"
version = "0.1.0"
edition = "2021"
publish = false

[dependencies]
anyhow = "=1.0.104"
bytemuck = { version = "=1.25.2", features = ["derive"] }
env_logger = "=0.11.11"
glam = { version = "=0.30.10", features = ["bytemuck"] }
gltf = "=1.4.1"
image = { version = "=0.25.10", default-features = false, features = ["jpeg", "png"] }
log = "=0.4.35"
pollster = "=1.0.1"
serde = { version = "=1.0.229", features = ["derive"] }
serde_json = "=1.0.154"
wgpu = "=29.0.4"
winit = "=0.30.13"
