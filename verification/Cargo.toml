[package]
name = "halley_kart"
version = "0.1.0"
edition = "2021"
publish = false

[dependencies]
strict-yaml-rust = "*"
uuid = "*"
log = "*"
stderrlog = "*"
vulkano = "0.19"
vulkano-win = "0.19"
vulkano-shaders = "0.19"
winit = "0.24"
cpal = "0.13"
