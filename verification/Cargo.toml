[package]
name = "massive_renderer"
version = "0.1.0"
edition = "2021"
publish = false

[dependencies]
anyhow = "1"
bytemuck = { version = "1", features = ["derive"] }
cgmath = "0.18"
cosmic-text = "0.11"
itertools = "0.12"
log = "0.4"
serde = { version = "1", features = ["derive"] }
swash = "0.1"
tracing = "0.1"
wgpu = { version = "0.19", default-features = false, features = ["wgsl"] }
