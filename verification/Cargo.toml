[package]
name = "plum"
version = "0.1.0"
edition = "2021"
publish = false

[dependencies]
ed25519-dalek = "*"
sha2 = "*"
spin = "*"
rand = "*"
