[package]
name = "camera_viz"
version = "0.1.0"
edition = "2021"
publish = false

[dependencies]
anyhow = "*"
flume = "*"
nalgebra = "*"
palette = "*"
rayon = "*"
