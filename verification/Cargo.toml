[package]
name = "egui_glium"
version = "0.1.0"
edition = "2021"
publish = false

[dependencies]
egui = { version = "=0.29.1", default-features = false }
egui-winit = { version = "=0.29.1", default-features = false }
glium = { version = "=0.36.0" }
winit = { version = "=0.30.13" }
