[package]
name = "naga_bridge"
version = "0.1.0"
edition = "2021"
publish = false

[dependencies]
naga = { version = "*", features = ["glsl-in", "wgsl-in", "spv-in", "spv-out", "wgsl-out", "msl-out", "glsl-out"] }
