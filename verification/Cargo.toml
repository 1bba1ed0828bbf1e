[package]
name = "glfw_window"
version = "0.1.0"
edition = "2021"
publish = false

[dependencies]
gl = "*"
glfw = "*"
pistoncore-input = "*"
pistoncore-window = "*"
shader_version = "*"
