[package]
name = "tiefring"
version = "0.1.0"
edition = "2021"
publish = false

[dependencies]
bytemuck = { version = "1", features = ["derive"] }
image = "0.23"
itertools = "0.10"
wgpu = "0.10"
