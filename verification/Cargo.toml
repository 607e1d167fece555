[package]
name = "jade"
version = "0.1.0"
edition = "2021"
publish = false

[dependencies]
chrono = "=0.4.45"
clap = { version = "=4.6.7", features = ["derive"] }
eframe = { version = "0.29", default-features = false, features = ["glow", "x11"] }
env_logger = "=0.11.11"
log = "=0.4.34"
rand = "=0.8.8"
serde = { version = "=1.0.229", features = ["derive"] }
thiserror = "=1.0.69"
timer = "=0.2.0"
toml = "=0.8.23"
