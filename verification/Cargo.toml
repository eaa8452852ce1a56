[package]
name = "mjolnir"
version = "0.1.0"
edition = "2021"
publish = false

[dependencies]
wgpu = "0.14"
winit = "0.27"
rand = "0.8"
bytemuck = { version = "1", features = ["derive"] }
log = "0.4"
env_logger = "0.10"
anyhow = "1"
tobj = { version = "3", features = ["async"] }
gltf = "1"
pollster = "0.2"
