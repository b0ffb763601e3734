[package]
name = "waytify"
version = "0.1.0"
edition = "2021"
publish = false

[dependencies]
anyhow = "=1.0.104"
cpal = "0.16"
egui = "=0.33.3"
egui-wgpu = { version = "=0.33.3", default-features = false }
egui-winit = { version = "=0.33.3", default-features = false }
pollster = "=0.4.0"
wgpu = { version = "=27.0.1", default-features = false, features = ["std", "vulkan", "wgsl"] }
winit = { version = "=0.30.13", default-features = false, features = ["rwh_06", "x11"] }
