[package]
name = "focus_task"
version = "0.1.0"
edition = "2021"
publish = false

[dependencies]
keyring = { version = "=3.6.3", features = ["apple-native", "windows-native"] }
serde = { version = "=1.0.229", features = ["derive"] }
