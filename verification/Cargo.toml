[package]
name = "vibe_renderer"
version = "0.1.0"
edition = "2021"
publish = false

[dependencies]
wgpu = { version = "=26.0.1", features = ["glsl", "serde"] }
bytemuck = { version = "=1.25.2", features = ["derive"] }
serde = { version = "=1.0.229", features = ["derive"] }
toml = "=0.5.11"
xdg = "=3.0.0"
thiserror = "=2.0.21"
pollster = "=0.4.0"
tracing = "=0.1.44"
cgmath = "=0.18.0"
image = { version = "0.25", default-features = false }
fastrand = "2"
