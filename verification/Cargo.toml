[package]
name = "proof_params"
version = "0.1.0"
edition = "2021"
publish = false

[dependencies]
anyhow = "=1.0.104"
merkletree = "=0.23.0"
rand = "=0.4.6"
serde = { version = "=1.0.229", features = ["derive"] }
typenum = "=1.20.1"
