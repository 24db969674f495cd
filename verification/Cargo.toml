[package]
name = "chain_extension"
version = "0.1.0"
edition = "2021"
publish = false

[dependencies]
parity-scale-codec = "=3.7.5"
ink_env = "=3.4.0"
ink_prelude = "=3.4.0"
pallet-contracts = { version = "*", default-features = false }
pallet-scheduler = { version = "*", default-features = false }
frame-support = { version = "*", default-features = false }
frame-system = { version = "*", default-features = false }
sp-runtime = { version = "*", default-features = false }
sp-std = { version = "*", default-features = false }
