[package]
name = "palletizer"
version = "0.1.0"
edition = "2021"
publish = false

[dependencies]
image = "=0.25.10"
wgpu = "=22.1.0"
pollster = "=1.0.1"
bytemuck = { version = "=1.25.2", features = ["derive"] }
rayon = "=1.12.0"
