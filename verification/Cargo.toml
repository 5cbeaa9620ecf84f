[package]
name = "watertight"
version = "0.1.0"
edition = "2021"
publish = false

[dependencies]
glam = "=0.27.0"
gltf = { version = "1", default-features = false, features = ["utils"] }
