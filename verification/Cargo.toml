[package]
name = "velowm"
version = "0.1.0"
edition = "2021"
publish = false

[dependencies]
anyhow = "*"
chrono = "*"
env_logger = "*"
libc = "*"
log = "*"
notify = "*"
rand = "*"
serde = { version = "*", features = ["derive"] }
toml = "*"
