[package]
name = "eip1337"
version = "0.1.0"
edition = "2021"
publish = false

[dependencies]
ed25519-dalek = "1"
hex = "0.4"
pem = "1"
renvm-sig = "*"
