[package]
name = "ciphernode_core"
version = "0.1.0"
edition = "2021"
publish = false

[dependencies]
fhe = "=0.1.1"
rand = "0.9"
rand_chacha = "0.9"
