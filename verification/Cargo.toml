[package]
name = "texture_image"
version = "0.1.0"
edition = "2021"
publish = false

[dependencies]
wgpu = { version = "=0.17.2", default-features = false }
wgpu-types = "=0.17.0"
image = { version = "=0.24.9", default-features = false, features = ["png"] }
bitflags = "=2.13.2"
serde = { version = "=1.0.229", features = ["derive"] }
thiserror = "=1.0.69"
bevy_math = "=0.12.1"
