[package]
name = "backend_launcher"
version = "0.1.0"
edition = "2021"
publish = false

[dependencies]
chrono = { version = "0.4", default-features = false, features = ["clock"] }
tauri = { version = "2", default-features = false, features = ["wry"] }
