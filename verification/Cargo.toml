[package]
name = "unbound_webhook"
version = "0.1.0"
edition = "2021"
publish = false

[dependencies]
anyhow = "*"
base64 = "*"
clap = { version = "*", features = ["derive", "env"] }
env_logger = "*"
log = "*"
reqwest = { version = "*", default-features = false, features = ["json", "rustls-tls"] }
rocket = { version = "*", features = ["json"] }
serde = { version = "*", features = ["derive"] }
serde_json = "*"
