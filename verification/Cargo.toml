[package]
name = "ipfs_ks"
version = "0.1.0"
edition = "2021"
publish = false

[dependencies]
ink_env = "=3.4.0"
ink_lang = "=3.4.0"
parity-scale-codec = "=3.7.5"
