[package]
name = "shapez"
version = "0.1.0"
edition = "2021"
publish = false

[dependencies]
bytemuck = { version = "1", features = ["derive"] }
wgpu = { version = "0.19", default-features = false, features = ["wgsl"] }
image = { version = "0.24", default-features = false, features = ["png"] }
argh = "0.1"
pollster = "0.3"
anyhow = "1"
