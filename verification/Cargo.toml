[package]
name = "file_dialog"
version = "0.1.0"
edition = "2021"
publish = false

[dependencies]
egui = { version = "0.22", default-features = false }
