[package]
name = "vulkano_shaders"
version = "0.1.0"
edition = "2021"
publish = false

[dev-dependencies]
vk-sys = "=0.7.0"
