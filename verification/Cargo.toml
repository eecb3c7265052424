[package]
name = "cubensis"
version = "0.1.0"
edition = "2021"
publish = false

[dependencies]
anyhow = "=1.0.104"
bytemuck = { version = "=1.25.2", features = ["derive"] }
cgmath = "=0.18.0"
cpal = "=0.13.5"
dasp_ring_buffer = "=0.11.0"
dirs = "=4.0.0"
egui = "=0.15.0"
egui_wgpu_backend = "=0.14.0"
egui_winit_platform = "=0.11.0"
env_logger = "=0.9.3"
epi = "=0.15.0"
image = "=0.23.14"
itertools = "=0.10.5"
libm = "=0.2.16"
log = "=0.4.34"
naga = { version = "=0.7.3", features = ["validate", "wgsl-in"] }
notify = "=4.0.18"
pollster = "=0.2.5"
serde = { version = "=1.0.229", features = ["derive"] }
serde_json = "=1.0.154"
single_value_channel = "=1.2.2"
spectrum-analyzer = "=1.9.0"
tungstenite = { version = "=0.16.0", default-features = false }
walkdir = "=2.5.0"
wgpu = "=0.11.1"
winit = "=0.25.0"
