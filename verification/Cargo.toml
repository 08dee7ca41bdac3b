[package]
name = "framehost"
version = "0.1.0"
edition = "2021"
publish = false

[dependencies]
glam = "0.25"
imgui = "0.11"
pollster = "*"
env_logger = { version = "*", default-features = false }
log = "*"
ansi_term = "*"
bytemuck = { version = "*", features = ["derive"] }
