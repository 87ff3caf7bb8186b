[package]
name = "taxed_token_launchpad"
version = "0.1.0"
edition = "2021"
publish = false

[dependencies]
anchor-lang = "=1.2.1"
spl-token-2022 = "=11.1.0"
spl-token-2022-interface = "=3.1.2"
solana-address = "=2.9.0"
solana-instruction = "=3.5.1"
solana-program-error = "=3.0.1"
solana-system-interface = { version = "=3.3.0", features = ["bincode"] }
