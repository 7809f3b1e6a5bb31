[package]
name = "ledge"
version = "0.1.0"
edition = "2021"
publish = false

[dependencies]
rustc_apfloat = "=0.2.3"
bytemuck = { version = "=1.25.2", features = ["derive"] }
cgmath = "=0.18.0"
vulkano = "=0.28.0"
winit = "=0.26.1"
