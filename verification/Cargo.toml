[package]
name = "nft_pass_book"
version = "0.1.0"
edition = "2021"
publish = false

[dependencies]
solana-program = "1.18"
spl-token = { version = "4", features = ["no-entrypoint"] }
spl-associated-token-account = { version = "2", features = ["no-entrypoint"] }
mpl-token-metadata = "4"
borsh = "0.10"
num-derive = "0.4"
num-traits = "0.2"
thiserror = "1"
