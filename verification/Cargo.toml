[package]
name = "papitas"
version = "0.1.0"
edition = "2021"
publish = false

[dependencies]
rand = "0.8"
instant = "0.1"
gdnative = "0.11"
serde = { version = "1", features = ["derive"] }
serde_json = "1"
