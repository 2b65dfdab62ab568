[package]
name = "beacon"
version = "0.1.0"
edition = "2021"
publish = false

[dependencies]
base64 = "0.21"
rand = "0.8"
rand_chacha = "0.3"
sha2 = "0.10"
