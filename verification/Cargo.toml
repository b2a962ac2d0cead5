[package]
name = "authust"
version = "0.1.0"
edition = "2021"
publish = false

[dependencies]
rand = "=0.8.8"
regex = "=1.13.1"
base64 = "=0.21.7"
rhai = "=1.27.0"
http = "=0.2.12"
uuid = "=1.29.0"
time = "=0.3.55"
serde = { version = "1", features = ["derive"] }
serde_json = "=1.0.154"
url = "2"
argon2 = "0.5"
