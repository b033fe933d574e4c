[package]
name = "humanship"
version = "0.1.0"
edition = "2021"
publish = false

[dependencies]
anchor-lang = "0.30.1"
mpl-bubblegum = "1.4.0"
solana-program = "1.18"
spl-account-compression = "0.3"
