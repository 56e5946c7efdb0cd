[package]
name = "wormhole_bridge"
version = "0.1.0"
edition = "2021"
publish = false

[dependencies]
wormhole-raw-vaas = { version = "=0.3.0", features = ["ruint"] }
ruint = "=1.20.1"
solana-program = "*"
