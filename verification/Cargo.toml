[package]
name = "camera_tools"
version = "0.4.0"
edition = "2021"
publish = false

[dependencies]
apex-camera-models = "=0.1.0"
apex-solver = "=1.2.1"
nalgebra = "0.33"
image = { version = "=0.25.10", default-features = false, features = ["png"] }
serde = { version = "1", features = ["derive"] }
serde_yaml = "=0.9.34"
yaml-rust = "=0.4.5"
clap = { version = "=4.6.7", features = ["derive"] }
thiserror = "2"
env_logger = { version = "=0.11.11", default-features = false }
log = "0.4"
