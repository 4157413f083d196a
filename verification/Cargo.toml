[package]
name = "ckb_std"
version = "0.1.0"
edition = "2021"
publish = false

[dependencies]
gcd = "*"
ckb-hash = "*"
buddy-alloc = "*"
