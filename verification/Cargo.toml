[package]
name = "myboy"
version = "0.1.0"
edition = "2021"
publish = false

[dependencies]
egui = "0.29.1"
egui_extras = "0.29.1"
