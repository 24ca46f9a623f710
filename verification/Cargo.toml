[package]
name = "frameloop"
version = "0.1.0"
edition = "2021"
publish = false

[dependencies]
bytemuck = "1"
futures = "0.3"
glsl-to-spirv = "0.1"
wgpu = "0.5"
winit = "0.22"
