[package]
name = "gpm"
version = "0.1.0"
edition = "2021"
publish = false

[dependencies]
tokio = { version = "*", features = ["full"] }
log = "*"
env_logger = "*"
serde = { version = "*", features = ["derive"] }
toml = "*"
rppal = "*"
raestro = "*"
