[package]
name = "realtime_render"
version = "0.1.0"
edition = "2021"
publish = false

[dependencies]
wgpu = "=26.0.1"
winit = "=0.30.13"
pollster = "=0.4.0"
bytemuck = { version = "=1.25.2", features = ["derive"] }
nalgebra-glm = "=0.19.0"
obj-rs = "0.7"
rand = "=0.9.5"
