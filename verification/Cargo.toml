[package]
name = "rust_sdl2_webgl"
version = "0.1.0"
edition = "2021"
publish = false

[dependencies]
glow = "*"
nalgebra = "*"
rand = "*"
sdl2 = "*"
