[package]
name = "sphere_tracer"
version = "0.1.0"
edition = "2021"
publish = false

[dependencies]
bytemuck = "1"
pollster = "0.3"
tracing = "0.1"
tracing-subscriber = "0.3"
wgpu = "0.17"
winit = "0.28"
