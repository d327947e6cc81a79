[package]
name = "nonce_airdrop"
version = "0.1.0"
edition = "2021"
publish = false

[dependencies]
anchor-lang = "0.30.1"
anchor-spl = "0.30.1"
solana-sdk = "1.18"
anyhow = "1"
hex = "0.4"
