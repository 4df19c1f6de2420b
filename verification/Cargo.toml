[package]
name = "ash_renderer"
version = "0.1.0"
edition = "2021"
publish = false

[dependencies]
ash = "0.38"
bytemuck = "1"
glam = "*"
log = "0.4"
objc = "0.2"
parking_lot = "0.12"
raw-window-handle = "0.6"
vk-mem = "0.4"
winit = { version = "0.30", default-features = false, features = ["rwh_06", "x11"] }
