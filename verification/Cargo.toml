[package]
name = "helper_supervisor"
version = "0.1.0"
edition = "2021"
publish = false

[dependencies]
serde_json = "1"
reqwest = { version = "0.12", default-features = false }
tauri = { version = "2", default-features = false, features = ["wry"] }
