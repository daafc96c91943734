[package]
name = "raydium_swap"
version = "0.1.0"
edition = "2021"
publish = false

[dependencies]
solana-sdk = "=1.18.26"
spl-token = { version = "=4.0.0", features = ["no-entrypoint"] }
spl-associated-token-account = { version = "=2.3.0", features = ["no-entrypoint"] }
dialoguer = { version = "0.11", default-features = false }
log = "0.4"
serde_json = "1"
