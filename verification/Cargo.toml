[package]
name = "rect_renderer"
version = "0.1.0"
edition = "2021"
publish = false

[dependencies]
image = "0.24"
wgpu = "0.20"
winit = "0.30"
pollster = "0.3"
log = "0.4"
