[package]
name = "workout_bot"
version = "0.1.0"
edition = "2021"
publish = false

[dependencies]
ureq = "2"
serde = { version = "*", features = ["derive"] }
serde_json = "*"
log = "*"
env_logger = "*"
dotenv = "*"
anyhow = "*"
thiserror = "*"
