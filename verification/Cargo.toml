[package]
name = "certwatch"
version = "0.1.0"
edition = "2021"
publish = false

[dependencies]
chrono = "*"
tokio = { version = "*", features = ["full"] }
axum = "*"
openssl = "*"
hostfile = "*"
futures = "*"
url = "*"
serde = { version = "*", features = ["derive"] }
serde_json = "*"
