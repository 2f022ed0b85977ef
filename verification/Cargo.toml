[package]
name = "iced_wgpu_embed"
version = "0.1.0"
edition = "2021"
publish = false

[dependencies]
iced_core = "=0.14.0"
iced_graphics = { version = "=0.14.0", features = ["fira-sans"] }
iced_runtime = "=0.14.0"
iced_wgpu = "=0.14.0"
iced_widget = "=0.14.2"
log = "=0.4.35"
pollster = "=1.0.1"
wgpu = "=27.0.1"
