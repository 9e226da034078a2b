[package]
name = "lattice"
version = "0.1.0"
edition = "2021"
publish = false

[dependencies]
rand = "0.8"
serde = { version = "1", features = ["derive"] }
serde_json = "1"
toml = "0.8"
dirs = "5"
log = "0.4"
env_logger = "0.11"
lazy_static = "1"
once_cell = "1"
parking_lot = "0.12"
rustfft = "6"
midir = "0.10"
base64 = "0.22"
walkdir = "2"
image = { version = "0.25", default-features = false, features = ["png", "jpeg", "gif"] }
