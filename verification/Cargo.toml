[package]
name = "ckb_vm"
version = "0.1.0"
edition = "2021"
publish = false

[dependencies]
goblin = "0.4"
scroll = "0.10"
bytes = "1"
derive_more = { version = "1", features = ["display"] }
fnv = "1"
