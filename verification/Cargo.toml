[package]
name = "glyphic"
version = "0.1.0"
edition = "2021"
publish = false

[dependencies]
futures = "0.3"
wgpu = "0.17"
winit = "0.28"
