[package]
name = "msi-center"
version = "0.1.0"
edition = "2021"
publish = false

[dependencies]
clap = { version = "=4.6.7", features = ["derive"] }
colored = "=2.2.0"
dirs = "=5.0.1"
eframe = { version = "0.24", default-features = false, features = ["default_fonts", "glow"] }
env_logger = "=0.11.11"
nix = { version = "=0.29.0", features = ["user"] }
serde = { version = "=1.0.229", features = ["derive"] }
serde_json = "=1.0.154"
thiserror = "=1.0.69"
