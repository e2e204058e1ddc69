[package]
name = "fractal_explorer"
version = "0.1.0"
edition = "2021"
publish = false

[dependencies]
wgpu = { version = "22", default-features = false, features = ["wgsl"] }
winit = { version = "0.30", default-features = false, features = ["rwh_06", "x11"] }
egui = { version = "0.29", default-features = false, features = ["default_fonts"] }
egui-wgpu = { version = "0.29", default-features = false }
egui-winit = { version = "0.29", default-features = false, features = ["x11"] }
glam = "0.29"
bytemuck = { version = "1", features = ["derive"] }
image = { version = "0.25", default-features = false, features = ["png"] }
log = "0.4"
env_logger = { version = "0.11", default-features = false }
pollster = "0.3"
