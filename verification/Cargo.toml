[package]
name = "webgpu"
version = "0.1.0"
edition = "2021"
publish = false

[dependencies]
spirv-reflect = "*"
pathfinder_gpu = "*"
pathfinder_geometry = "*"
pathfinder_resources = "*"
wgpu = { version = "*", default-features = false }
