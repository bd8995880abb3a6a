[package]
name = "domus_auth"
version = "0.1.0"
edition = "2021"
publish = false

[dependencies]
argon2 = "*"
pasetors = "*"
chrono = "*"
base62 = "*"
uuid = { version = "*", features = ["v4"] }
axum = "0.6"
tokio = { version = "*", features = ["full"] }
serde = { version = "*", features = ["derive"] }
serde_json = "*"
dotenvy = "*"
toml = "*"
