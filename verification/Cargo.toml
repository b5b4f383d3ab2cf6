[package]
name = "token_lending"
version = "0.1.0"
edition = "2021"
publish = false

[dependencies]
serum_dex = "*"
solana-program = "*"
