[package]
name = "file_monitor"
version = "0.1.0"
edition = "2021"
publish = false

[dependencies]
crossbeam-channel = "0.5"
inotify = "0.11"
winit = "0.30"
egui = "0.31"
egui-wgpu = "0.31"
egui-winit = "0.31"
android-activity = "0.6"
jni = "0.21"
pollster = "0.4"
