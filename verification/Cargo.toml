[package]
name = "ckb_passport_lock"
version = "0.1.0"
edition = "2021"
publish = false

[dependencies]
blake2b-ref = "*"
ckb-std = "*"
