[package]
name = "token_metadata_cli"
version = "0.1.0"
edition = "2021"
publish = false

[dependencies]
anyhow = "=1.0.104"
clap = { version = "=4.4.18", features = ["derive"] }
mpl-token-metadata = "=4.1.2"
solana-sdk = "=1.17.34"
