[package]
name = "twap_hook"
version = "0.1.0"
edition = "2021"
publish = false

[dependencies]
anchor-lang = { version = "=0.31.2", features = ["init-if-needed"] }
anchor-spl = { version = "=0.31.2", features = ["metadata"] }
borsh = { version = "=0.10.4" }
mpl-bubblegum = "=2.1.1"
mpl-token-metadata = "=5.1.1"
