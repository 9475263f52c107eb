[package]
name = "tls_mpc"
version = "0.1.0"
edition = "2021"
publish = false

[dependencies]
aes = "0.7"
futures = "0.3"
hex = "0.4"
hmac-sha256 = "1"
rand = "0.8"
rand_chacha = "0.3"
serde = { version = "1", features = ["derive"] }

[dev-dependencies]
aes-gcm = "0.9"
