[package]
name = "runtime_dispatcher"
version = "0.1.0"
edition = "2021"
publish = false

[dependencies]
serde_cbor = "0.11"
sha2 = "0.10"
