[package]
name = "coldfusion"
version = "0.1.0"
edition = "2021"
publish = false

[dependencies]
stl_io = "*"
glam = "*"
bytemuck = { version = "*", features = ["derive"] }
egui = "*"
eframe = { version = "*", default-features = false, features = ["wgpu", "x11", "default_fonts"] }
env_logger = "*"
