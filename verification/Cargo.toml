[package]
name = "heat_wgpu"
version = "0.1.0"
edition = "2021"
publish = false

[dependencies]
bytemuck = "1"
env_logger = { version = "0.11", default-features = false }
noise = "0.8"
regex = { version = "1", default-features = false, features = ["std"] }
