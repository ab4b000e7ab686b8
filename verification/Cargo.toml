[package]
name = "aabel_multihash"
version = "0.1.0"
edition = "2021"
publish = false

[dependencies]
siphasher = "*"
rand = "*"
