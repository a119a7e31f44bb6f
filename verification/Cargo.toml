[package]
name = "binding_crypto"
version = "0.1.0"
edition = "2021"
publish = false

[dependencies]
starknet-types-core = "0.2"
starknet-crypto = "0.8"
starknet-curve = "0.6"
num-bigint = "=0.4.8"
num-integer = "=0.1.47"
num-traits = "=0.2.19"
rand = "=0.8.8"
serde = { version = "=1.0.229", features = ["derive"] }
serde_json = "=1.0.151"
lambdaworks-math = "=0.10.0"
