[package]
name = "sign_txs"
version = "0.1.0"
edition = "2021"
publish = false

[dependencies]
anyhow = "*"
clap = { version = "*", features = ["derive", "env"] }
serde = { version = "*", features = ["derive"] }
serde_json = "*"
