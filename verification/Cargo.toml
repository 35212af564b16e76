[package]
name = "password_manager"
version = "0.1.0"
edition = "2021"
publish = false

[dependencies]
age = "=0.10.1"
argon2 = "=0.5.3"
base64 = "=0.21.7"
chrono = "=0.4.45"
dotenvy = "=0.15.7"
rand = "=0.8.8"
rand_core = "=0.6.4"
rusqlite = { version = "=0.31.0", features = ["bundled"] }
uuid = { version = "=1.27.0", features = ["v4"] }
zeroize = "=1.9.1"
