[package]
name = "render_core"
version = "0.1.0"
edition = "2021"
publish = false

[dependencies]
wgpu = "23"
winit = "0.30"
color-eyre = "0.6"
log = "0.4"
