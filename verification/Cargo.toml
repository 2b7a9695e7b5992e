[package]
name = "screencrop"
version = "0.1.0"
edition = "2021"
publish = false

[dependencies]
display-info = "0.4"
glium = "0.32"
image = { version = "0.24", default-features = false, features = ["png"] }
imgui = "0.11"
imgui-glium-renderer = "0.11"
imgui-winit-support = "0.11"
winapi = { version = "0.3", features = ["winuser", "wingdi"] }
winit = "0.27"
