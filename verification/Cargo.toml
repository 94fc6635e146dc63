[package]
name = "voxel_world"
version = "0.1.0"
edition = "2021"
publish = false

[dependencies]
anyhow = "1"
gl = "0.14"
glutin = "0.28"
image = "0.24"
nalgebra-glm = "0.18"
