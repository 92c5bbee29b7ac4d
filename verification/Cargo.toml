[package]
name = "rendering_engine"
version = "0.1.0"
edition = "2021"
publish = false

[dependencies]
wgpu = { version = "=23.0.1", default-features = false, features = ["wgsl"] }
anyhow = "=1.0.104"
glam = "=0.29.3"
crossbeam-channel = "=0.5.17"
winit = "=0.30.13"
log = "=0.4.35"
bytemuck = { version = "=1.25.2", features = ["derive"] }
serde = { version = "=1.0.229", features = ["derive"] }
image = { version = "*", default-features = false, features = ["png", "jpeg"] }
