[package]
name = "cad_3e_engine"
version = "0.1.0"
edition = "2021"
publish = false

[dependencies]
anyhow = "1.0"
glow = "0.16"
glutin = "0.32"
glutin-winit = "0.5"
winit = "0.30"
nalgebra-glm = "0.18"
image = { version = "0.25", default-features = false, features = ["png", "jpeg"] }
