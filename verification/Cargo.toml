[package]
name = "chain_codec"
version = "0.1.0"
edition = "2021"
publish = false

[dependencies]
base58 = "*"
sha2 = "*"
hex = "*"
prost = "*"
serde_json = "*"
clap = "2"
juniper = { version = "*", default-features = false }
