[package]
name = "renderer_core"
version = "0.1.0"
edition = "2021"
publish = false

[dependencies]
wgpu = "*"
winit = "*"
pollster = "*"
log = "*"
simple_logger = "*"
