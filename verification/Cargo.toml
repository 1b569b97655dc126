[package]
name = "wgpu_winsafe_compat"
version = "0.1.0"
edition = "2021"
publish = false

[dependencies]
pollster = "=1.0.1"
raw-window-handle = "=0.6.2"
wgpu = "=25.0.2"
winsafe = { version = "=0.0.29", features = ["gui"] }
