[package]
name = "escrow_anchor"
version = "0.1.0"
edition = "2021"
publish = false

[dependencies]
anchor-lang = "=1.2.0"
anchor-spl = { version = "=1.2.0", default-features = false, features = ["token"] }
solana-pubkey = { version = "=3.0.0", features = ["curve25519"] }
