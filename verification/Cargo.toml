[package]
name = "pupil_osc"
version = "0.1.0"
edition = "2021"
publish = false

[dependencies]
env_logger = "0.11"
log = "0.4"
rosc = "0.10"
serde = { version = "1", features = ["derive"] }
toml = "0.8"
windows-capture = "*"
