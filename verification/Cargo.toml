[package]
name = "solana_programs"
version = "0.1.0"
edition = "2021"
publish = false

[dependencies]
rand = "*"
colored = "*"
ephemeral-vrf-sdk = "*"
anchor-lang = "*"
anchor-spl = "*"
mpl-core = "*"
