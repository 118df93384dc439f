[package]
name = "seedkeys"
version = "0.1.0"
edition = "2021"
publish = false

[dependencies]
bip39 = "=3.0.0"
blake2 = "=0.10.6"
ed25519-dalek = "=1.0.1"
hex = "=0.4.3"
rand = "=0.7.3"
sodiumoxide = "=0.2.7"
