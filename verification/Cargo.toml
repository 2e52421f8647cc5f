[package]
name = "ledb_error"
version = "0.1.0"
edition = "2021"
publish = false

[dependencies]
lmdb = "*"
ron = "*"
serde_cbor = "*"
