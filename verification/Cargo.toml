[package]
name = "presence_monitor"
version = "0.1.0"
edition = "2021"
publish = false

[dependencies]
chrono = "*"
redis = "*"
serde = { version = "*", features = ["derive"] }
toml = "*"
