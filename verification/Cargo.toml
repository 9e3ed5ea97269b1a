[package]
name = "cosmic_ant"
version = "0.1.0"
edition = "2021"
publish = false

[dependencies]
gl = "0.14"
gltf = "1.4"
glutin = "0.32"
glutin-winit = "0.5"
image = { version = "0.25", default-features = false, features = ["png", "jpeg"] }
nalgebra-glm = "*"
rand = "0.9"
winit = "0.30"
