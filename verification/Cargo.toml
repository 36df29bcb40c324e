[package]
name = "egui_glfw_gl"
version = "0.1.0"
edition = "2021"
publish = false

[dependencies]
egui = "=0.27.2"
glfw = { version = "=0.55.0", default-features = false }
gl33 = "=0.2.1"
clipboard = "=0.5.0"
webbrowser = "=0.8.15"
winapi = { version = "=0.3.9", features = ["winuser"] }
cgmath = "=0.18.0"

[dev-dependencies]
regex = "=1.13.1"
