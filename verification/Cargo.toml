[package]
name = "luminance_glfw"
version = "0.1.0"
edition = "2021"
publish = false

[dependencies]
gl = "=0.14.0"
glfw = "=0.63.0"
luminance = "=0.31.1"
luminance-windowing = "*"
