[package]
name = "nft_program"
version = "0.1.0"
edition = "2021"
publish = false

[dependencies]
anchor-lang = "=0.27.0"
anchor-spl = { version = "=0.27.0", default-features = false, features = ["mint", "token", "associated_token"] }
mpl-token-metadata = { version = "=1.12.2", features = ["no-entrypoint"] }
mpl-token-auth-rules = { version = "=1.4.1", features = ["no-entrypoint"] }
