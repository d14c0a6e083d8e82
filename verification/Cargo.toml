[package]
name = "openpanel_sdk"
version = "0.1.0"
edition = "2021"
publish = false

[dependencies]
godot = "*"
serde = { version = "1", features = ["derive"] }
serde_json = "1"
thiserror = "*"
