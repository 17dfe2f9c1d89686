[package]
name = "render_core"
version = "0.1.0"
edition = "2021"
publish = false

[dependencies]
anyhow = "1"
bytemuck = { version = "1", features = ["derive"] }
cgmath = "0.18"
image = "0.25"
tobj = { version = "4", features = ["async"] }
tokio = { version = "1", features = ["rt", "rt-multi-thread"] }
wgpu = "0.20"
winit = "0.30"
