[package]
name = "render_engine"
version = "0.1.0"
edition = "2021"
publish = false

[dependencies]
bytemuck = { version = "*", features = ["derive"] }
glam = "*"
log = "*"
env_logger = { version = "*", default-features = false }
pollster = "*"
winit = "*"
wgpu = "*"
egui = "*"
egui-wgpu = "*"
egui-winit = { version = "*", default-features = false, features = ["wayland", "x11"] }
gltf = "*"
image = { version = "*", default-features = false, features = ["jpeg", "png"] }
