[package]
name = "fcv"
version = "0.1.0"
edition = "2021"
publish = false

[dependencies]
bytemuck = "*"
egui = "*"
egui-wgpu = "*"
egui-winit = "*"
glam = { version = "*", features = ["bytemuck"] }
log = "*"
pollster = "*"
winit = "*"
