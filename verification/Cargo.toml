[package]
name = "mint_token"
version = "0.1.0"
edition = "2021"
publish = false

[dependencies]
rust_decimal = "1"
solana-program = "1.18"
solana-sdk = "1.18"
spl-token = "=4.0.0"
tracing = "0.1"
