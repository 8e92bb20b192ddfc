[package]
name = "goosy_vault"
version = "0.1.0"
edition = "2021"
rust-version = "1.95.0"
publish = false

[dependencies]
solana-pubkey = { version = "=3.0.0", features = ["curve25519"] }
solana-sha256-hasher = "=3.1.0"
solana-rpc-client = { version = "=3.1.14", default-features = false }
solana-keypair = "=3.1.2"
solana-signer = "=3.0.1"
solana-transaction = "=3.1.0"
solana-instruction = "=3.5.1"
solana-commitment-config = "=3.1.1"
tokio = { version = "*", features = ["rt-multi-thread", "macros"] }
base64 = "*"
