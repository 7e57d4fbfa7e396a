[package]
name = "sph_synth"
version = "0.1.0"
edition = "2021"
publish = false

[dependencies]
bytemuck = { version = "*", features = ["derive"] }
pollster = "*"
wgpu = "*"
winit = "*"
