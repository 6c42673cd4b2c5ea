[package]
name = "gallery_app"
version = "0.1.0"
edition = "2021"
publish = false

[dependencies]
egui = "0.31"
egui-wgpu = "0.31"
egui-winit = "0.31"
pollster = "0.4"
wgpu = "24"
winit = "0.30"
