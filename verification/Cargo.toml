[package]
name = "dgruft"
version = "0.1.0"
edition = "2021"
publish = false

[dependencies]
aes-gcm = "=0.10.3"
base64ct = { version = "=1.6.0", features = ["alloc"] }
camino = "=1.1.12"
pbkdf2 = "=0.12.2"
rand = "=0.8.8"
rand_chacha = "=0.3.1"
rusqlite = { version = "=0.31.0", features = ["bundled"] }
sha2 = "=0.10.9"
uuid = { version = "=1.27.0", features = ["v4"] }
