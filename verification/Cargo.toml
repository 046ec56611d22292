[package]
name = "kosmos"
version = "0.1.0"
edition = "2021"
publish = false

[dependencies]
base64 = "*"
chrono = { version = "*", features = ["serde"] }
clap = { version = "*", features = ["derive", "env"] }
constant_time_eq = "*"
hmac = "*"
ipnetwork = "*"
log = "*"
pretty_env_logger = "*"
rand = "*"
reqwest = { version = "*", default-features = false }
rocket = "*"
serde = { version = "*", features = ["derive"] }
serde_json = "*"
sha2 = "*"
tokio = { version = "*", features = ["full"] }
uuid = { version = "*", features = ["v4"] }
