[package]
name = "particle_sim"
version = "0.1.0"
edition = "2021"
publish = false

[dependencies]
rand = "0.8"
bytemuck = { version = "1", features = ["derive"] }
glam = "0.24"
pollster = "0.3"
wgpu = "0.17"
winit = "0.28"
