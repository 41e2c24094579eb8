[package]
name = "rusty_lander"
version = "0.1.0"
edition = "2021"
publish = false

[dependencies]
svg = "*"
dirs = "*"
serde = { version = "*", features = ["derive"] }
serde_json = "*"
