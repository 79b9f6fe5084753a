[package]
name = "q3x_backend"
version = "0.1.0"
edition = "2021"
publish = false

[dependencies]
candid = "*"
crc32fast = "*"
ethereum-tx-sign = "*"
hex = "*"
ic-cdk = "*"
ic-ledger-types = "*"
serde = { version = "*", features = ["derive"] }
serde_json = "*"
sha2 = "*"
tiny-keccak = { version = "*", features = ["keccak"] }
