[package]
name = "phobz_visualizer"
version = "0.1.0"
edition = "2021"
publish = false

[dependencies]
rustfft = "*"
wgpu = "*"
pollster = "*"
bytemuck = { version = "*", features = ["derive"] }
serde = { version = "*", features = ["derive"] }
thiserror = "*"
symphonia = { version = "*", features = ["mp3", "aac"] }
