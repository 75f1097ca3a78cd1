[package]
name = "gl_lifecycle"
version = "0.1.0"
edition = "2021"
publish = false

[dependencies]
glutin = "*"
glutin-winit = "*"
winit = "*"
raw-window-handle = "*"
