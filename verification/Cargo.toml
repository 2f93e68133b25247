[package]
name = "swerve_sim_3d"
version = "0.1.0"
edition = "2021"
publish = false

[dependencies]
anyhow = "=1.0.104"
bytemuck = { version = "=1.25.2", features = ["derive"] }
cgmath = "=0.18.0"
culit = "=0.6.7"
env_logger = "=0.11.11"
ipc-channel = "=0.23.1"
log = "=0.4.35"
pollster = "=1.0.1"
rapier3d = { version = "=0.36.1", features = ["debug-render"] }
serde = { version = "=1.0.229", features = ["derive"] }
wgpu = "=30.0.1"
whippyunits = "=0.3.1"
winit = "=0.30.13"
