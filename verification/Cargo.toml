[package]
name = "splatcom"
version = "0.1.0"
edition = "2021"
publish = false

[dependencies]
anyhow = "1"
chrono = "0.4"
env_logger = "0.11"
glam = "0.34"
image = { version = "0.25", default-features = false, features = ["png"] }
interprocess = { version = "2", features = ["tokio"] }
log = "0.4"
pretty_env_logger = "0.5"
serde = { version = "1", features = ["derive"] }
serde_json = "1"
tokio = { version = "1", features = ["full"] }
