[package]
name = "imgui_support"
version = "0.1.0"
edition = "2021"
publish = false

[dependencies]
imgui = "0.12.0"
glium = "0.36.0"
winit = "0.30"
