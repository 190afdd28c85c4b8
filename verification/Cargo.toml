[package]
name = "kinematics_service"
version = "0.1.0"
edition = "2021"
publish = false

[dependencies]
ivory_bus = "=0.1.5"
ivory_kinematics = "=0.1.9"
log = "=0.4.34"
nalgebra = "=0.31.4"
serde = "=1.0.229"
serde_derive = "=1.0.229"
tokio = { version = "=1.53.2", features = ["sync", "rt"] }
toml = "*"
