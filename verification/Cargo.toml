[package]
name = "wgpu_triangle"
version = "0.1.0"
edition = "2021"
publish = false

[dependencies]
wgpu = "24"
winit = "0.29"
pollster = "0.4"
bytemuck = { version = "1", features = ["derive"] }
fontdue = "0.9"
font8x8 = "0.3"
