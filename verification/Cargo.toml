[package]
name = "cerberus_store"
version = "0.1.0"
edition = "2021"
publish = false

[dependencies]
argon2 = "0.5"
chacha20poly1305 = "0.10"
hkdf = "0.12"
hmac = "0.12"
rand = "0.8"
sha2 = "0.10"
uuid = { version = "1", features = ["v4"] }
zeroize = "1"
