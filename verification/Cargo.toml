[package]
name = "egui_tabs"
version = "0.1.0"
edition = "2021"
publish = false

[dependencies]
egui = { version = "0.28", default-features = false }
