[package]
name = "pmxview"
version = "0.1.0"
edition = "2021"
publish = false

[dependencies]
PMXUtil = "=0.2.3"
cgmath = "=0.17.0"
image = "=0.23.14"
shaderc = "=0.6.3"
vk-sys = "=0.5.2"
vulkano = "=0.19.0"
vulkano-shaders = "=0.19.0"
vulkano-win = "=0.19.0"
winit = "=0.22.2"
