[package]
name = "rust_grind"
version = "0.1.0"
edition = "2021"
publish = false

[dependencies]
gpio-cdev = "*"
nix = { version = "*", features = ["poll"] }
serde = { version = "*", features = ["derive"] }
serde_yaml = "*"
