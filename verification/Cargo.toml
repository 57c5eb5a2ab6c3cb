[package]
name = "mediaforge-core"
version = "0.4.1"
edition = "2021"
publish = false

[dependencies]
uuid = { version = "1", features = ["v4"] }
chrono = { version = "0.4", default-features = false, features = ["clock", "std"] }
serde = { version = "1", features = ["derive"] }
serde_json = "1"
toml = "*"
which = "*"
thiserror = "*"
log = "0.4"
env_logger = "*"
dirs = "*"
