[package]
name = "particle_buffer"
version = "0.1.0"
edition = "2021"
publish = false

[dependencies]
ash = "=0.38.0"
vulkano = "=0.35.2"
vulkano-shaders = "=0.35.0"
winit = "=0.30.13"
