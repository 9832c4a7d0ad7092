[package]
name = "minit"
version = "0.1.0"
edition = "2021"
publish = false

[dependencies]
nix = "0.26"
serde = { version = "*", features = ["derive"] }
serde_json = "*"
log = "*"
env_logger = "*"
anyhow = "*"
