[package]
name = "kcc"
version = "0.1.0"
edition = "2021"
publish = false

[dependencies]
anyhow = "1"
argon2 = "0.5"
axum = "0.8"
chrono = "0.4"
clap = { version = "4", features = ["derive"] }
colored = "2"
env_logger = "0.11"
futures = "0.3"
jsonwebtoken = "9"
k8s-openapi = { version = "*", features = ["latest"] }
kube = "*"
libc = "0.2"
log = "0.4"
rand = "0.8"
reqwest = { version = "0.12", default-features = false, features = ["json", "rustls-tls"] }
rust-embed = "8"
serde = { version = "1", features = ["derive"] }
serde_json = "1"
serde_yaml = "0.9"
time = "0.3"
tokio = { version = "1", features = ["full"] }
uuid = { version = "1", features = ["v4"] }
x509-parser = "*"
