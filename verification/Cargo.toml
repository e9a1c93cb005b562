[package]
name = "foray_render"
version = "0.1.0"
edition = "2021"
publish = false

[dependencies]
wgpu = "*"
glfw = "*"
pollster = "*"
bytemuck = { version = "*", features = ["derive"] }
