[package]
name = "contract_ref"
version = "0.1.0"
edition = "2021"
publish = false

[dependencies]
ink_primitives = { version = "3", features = ["std"] }
ink_storage = { version = "3", features = ["std"] }
ink_env = { version = "3", features = ["std"] }
parity-scale-codec = { version = "3", features = ["std"] }
