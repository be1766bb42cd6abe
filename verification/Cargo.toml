[package]
name = "tetra"
version = "0.1.0"
edition = "2021"
publish = false

[dependencies]
bytemuck = "1"
lyon_tessellation = "0.17"
nalgebra-glm = "*"
