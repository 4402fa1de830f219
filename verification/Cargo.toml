[package]
name = "fnq-visual"
version = "0.1.0"
edition = "2021"
publish = false

[dependencies]
async-channel = "*"
gtk4 = "*"
gtk4-layer-shell = "*"
notify = "*"
serde = { version = "*", features = ["derive"] }
toml = "*"
