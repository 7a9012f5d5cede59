[package]
name = "triangle"
version = "0.1.0"
edition = "2021"
publish = false

[dependencies]
vulkano = "0.11"
vulkano-shaders = "0.11"
vulkano-win = "0.11"
winit = "0.18"
