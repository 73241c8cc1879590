[package]
name = "strfive_engine"
version = "0.1.0"
edition = "2021"
publish = false

[dependencies]
image = "0.24"
rand = "0.8"
wgpu = "0.16"
winit = { version = "0.28", default-features = false, features = ["x11"] }
bytemuck = { version = "1", features = ["derive"] }
