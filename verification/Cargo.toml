[package]
name = "hardfork_since"
version = "0.1.0"
edition = "2021"
publish = false

[dependencies]
ckb-constant = "*"
serde = { version = "*", features = ["derive"] }
