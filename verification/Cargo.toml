[package]
name = "rcli"
version = "0.1.0"
edition = "2021"
publish = false

[dependencies]
anyhow = "*"
base64 = "*"
blake3 = "*"
clap = { version = "*", features = ["derive"] }
ed25519-dalek = "*"
rand = "*"
zxcvbn = "*"
