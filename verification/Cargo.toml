[package]
name = "audio_synthesis_shader"
version = "0.1.0"
edition = "2021"
publish = false

[dependencies]
anyhow = "=1.0.104"
bytemuck = { version = "=1.25.2", features = ["derive"] }
eframe = { version = "=0.21.3", default-features = false, features = ["default_fonts", "wgpu"] }
egui = "=0.21.0"
futures-executor = "=0.3.34"
naga = { version = "=0.11.1", features = ["span", "validate", "wgsl-in"] }
oddio = "=0.6.2"
wgpu = "=0.15.1"
