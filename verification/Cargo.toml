[package]
name = "offspring_factory"
version = "0.1.0"
edition = "2021"
publish = false

[dependencies]
base64 = "0.13"
secret-cosmwasm-std = "*"
secret-toolkit-crypto = { version = "*", features = ["hash", "rand"] }
serde = { version = "*", features = ["derive"] }
schemars = "*"
