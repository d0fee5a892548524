[package]
name = "mato_onchain_sdk"
version = "0.1.0"
edition = "2021"
publish = false

[dependencies]
borsh = "=1.8.1"
anchor-lang = { version = "=0.31.2", features = ["init-if-needed"] }
anchor-spl = { version = "=0.31.2", default-features = false, features = ["token", "token_2022", "associated_token"] }
