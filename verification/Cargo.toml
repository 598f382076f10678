[package]
name = "thaw_nft"
version = "0.1.0"
edition = "2021"
publish = false

[dependencies]
solana-program = "=2.3.0"
spl-token = { version = "=6.0.0", features = ["no-entrypoint"] }
mpl-token-metadata = "=5.1.1"
