[package]
name = "minimal-lexical"
version = "0.2.0"
edition = "2021"
publish = false

[dependencies]
rand_core = "0.6"
rand_xorshift = "0.3"
ryu = "1"
serde = "1"
serde_derive = "1"
toml = "0.5"
