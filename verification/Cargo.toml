[package]
name = "prediction_market"
version = "0.1.0"
edition = "2021"
publish = false

[dependencies]
soroban-sdk = { version = "*", features = ["testutils"] }
ed25519-dalek = { version = "*", features = ["rand_core"] }

[dev-dependencies]
rand = "0.8"
