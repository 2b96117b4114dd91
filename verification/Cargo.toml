[package]
name = "cube"
version = "0.1.0"
edition = "2021"
publish = false

[dependencies]
ggez = { version = "=0.9.3", default-features = false }
wgpu = "=0.16.3"
bytemuck = "=1.25.2"
