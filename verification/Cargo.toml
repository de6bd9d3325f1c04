[package]
name = "scene_control"
version = "0.1.0"
edition = "2021"
publish = false

[dependencies]
gl = "=0.14.0"
glfw = "*"
log = "=0.4.34"
serde = { version = "=1.0.229", features = ["derive"] }
