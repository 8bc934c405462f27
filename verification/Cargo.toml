[package]
name = "headless_raster"
version = "0.1.0"
edition = "2021"
publish = false

[dependencies]
image = { version = "=0.25.10", default-features = false }
khronos-egl = { version = "=6.0.0", features = ["dynamic"] }
libloading = "=0.8.9"
gl = "=0.14.0"
pathfinder_color = "=0.5.0"
pathfinder_geometry = "=0.5.1"
pathfinder_gl = "=0.5.0"
pathfinder_gpu = "=0.5.0"
pathfinder_renderer = "=0.5.0"
pathfinder_resources = "=0.5.0"
