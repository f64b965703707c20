[package]
name = "zvms"
version = "0.1.0"
edition = "2021"
publish = false

[dependencies]
jsonwebtoken = "9"
serde = { version = "1", features = ["derive"] }
serde_json = "1"
bcrypt = "0.15"
rsa = "0.9"
pem = "3"
hex = "0.4"
rand = "0.8"
uuid = { version = "1", features = ["v4"] }
tokio = { version = "1", features = ["macros", "rt-multi-thread", "sync", "fs", "net", "io-util"] }
mongodb = "2"
bson = "2"
futures = "0.3"
axum = "0.7"
chrono = "0.4"
tempfile = "3"
