[package]
name = "zk_wordle"
version = "0.1.0"
edition = "2021"
publish = false

[dependencies]
rand = "*"
risc0-zkvm = { version = "*", default-features = false }
