[package]
name = "obric"
version = "0.1.0"
edition = "2021"
publish = false

[dependencies]
num = "=0.4.3"
pyth-sdk = "=0.8.0"
pyth-sdk-solana = "=0.9.0"
anchor-lang = "=0.29.0"
anchor-spl = { version = "=0.29.0", default-features = false, features = ["token"] }
anyhow = "=1.0.104"
solana-sdk = "1.17"
