[package]
name = "snip"
version = "0.1.0"
edition = "2021"
publish = false

[dependencies]
image = { version = "0.24", default-features = false, features = ["png"] }
egui = { version = "0.22", default-features = false, features = ["default_fonts"] }
egui-winit = { version = "0.22", default-features = false }
egui_glow = { version = "0.22", default-features = false, features = ["winit"] }
glow = "0.12"
glutin = { version = "0.30", default-features = false, features = ["egl", "glx", "x11"] }
glutin-winit = { version = "0.3", default-features = false, features = ["egl", "glx", "x11"] }
raw-window-handle = "0.5"
x11-dl = "2"
display-info = "*"
