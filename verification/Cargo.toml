[package]
name = "contract_lifecycle"
version = "0.1.0"
edition = "2021"
publish = false

[dependencies]
miden-client = { version = "0.7", features = ["sqlite", "tonic"] }
miden-lib = "0.7"
miden-objects = "0.7"
rand = "0.8"
rand_chacha = "0.3"
tokio = { version = "1", features = ["macros", "rt-multi-thread", "time"] }
