[package]
name = "vulkan_base"
version = "0.1.0"
edition = "2021"
publish = false

[dependencies]
anyhow = "1"
ash = "0.37"
ash-window = "0.12"
bytemuck = "1"
crossbeam-channel = "0.5"
gpu-allocator = { version = "0.21", default-features = false, features = ["vulkan"] }
log = "0.4"
raw-window-handle = "0.5"
scopeguard = "1"
sdl2 = { version = "0.36", features = ["raw-window-handle"] }
simplelog = "0.12"
winit = "0.28"
