[package]
name = "grindie"
version = "0.1.0"
edition = "2021"
publish = false

[dependencies]
anchor-lang = "=0.31.2"
anchor-spl = { version = "=0.31.2", default-features = false, features = ["associated_token", "mint", "token", "token_2022"] }
mpl-core = { version = "=0.12.1", default-features = false, features = ["anchor"] }
solana-security-txt = "=1.1.3"
