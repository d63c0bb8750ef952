[package]
name = "hastra_sol_vault_stake"
version = "0.1.0"
edition = "2021"
publish = false

[dependencies]
anchor-lang = "=0.31.2"
anchor-spl = "0.31"

[dev-dependencies]
bincode = "=1.3.3"
