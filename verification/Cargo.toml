[package]
name = "viewer_core"
version = "0.1.0"
edition = "2021"
publish = false

[dependencies]
anyhow = "1"
bytemuck = { version = "1", features = ["derive"] }
cgmath = "0.18"
clap = { version = "4", features = ["derive"] }
env_logger = "0.11"
pollster = "0.3"
rand = "0.8"
rayon = "1"
tobj = "3"
wgpu = "0.12"
winit = "0.26"
