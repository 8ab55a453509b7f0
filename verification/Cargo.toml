[package]
name = "rally_notifier"
version = "0.1.0"
edition = "2021"
publish = false

[dependencies]
keyring = "2"
reqwest = "0.12"
serde = { version = "1", features = ["derive"] }
