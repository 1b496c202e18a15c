[package]
name = "wgpu_mandelbrot"
version = "0.1.0"
edition = "2021"
publish = false

[dependencies]
bytemuck = { version = "=1.25.2", features = ["derive"] }
env_logger = { version = "=0.11.11", default-features = false }
log = "=0.4.35"
pollster = "=0.3.0"
winit = { version = "0.29", default-features = false, features = ["rwh_06", "x11"] }
winit_input_helper = { version = "0.15", default-features = false }
