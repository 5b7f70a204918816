[package]
name = "rendercore"
version = "0.1.0"
edition = "2021"
publish = false

[dependencies]
wgpu = "26"
winit = "0.30"
pollster = "0.4"
tracing = "0.1"
tracing-subscriber = "0.3"
