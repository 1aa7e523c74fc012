[package]
name = "window_lifecycle"
version = "0.1.0"
edition = "2021"
publish = false

[dependencies]
env_logger = "=0.11.11"
pollster = "=1.0.1"
raw-window-handle = "=0.6.2"
wayland-client = { version = "=0.31.15", features = ["system"] }
wayland-protocols = { version = "=0.32.13", features = ["client"] }
wgpu = "=30.0.1"
