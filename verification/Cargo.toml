[package]
name = "soroban-cli"
version = "0.1.0"
edition = "2021"
publish = false

[dependencies]
clap = { version = "=4.6.7", features = ["derive", "env"] }
# Derives the public key of a private key.
ed25519-dalek = "=2.2.0"
http = "=0.2.12"
hyper = { version = "=0.14.32", features = ["client", "http1", "http2", "tcp"] }
hyper-tls = "=0.5.0"
# Makes mnemonic phrases and derives keys from them.
sep5 = "=0.1.0"
serde = { version = "=1.0.229", features = ["derive"] }
serde_json = "=1.0.154"
soroban-env-host = "=28.0.2"
# Reads the interface of a contract out of its wasm binary, for the command line.
soroban-spec = "=28.0.0"
soroban-spec-typescript = "=28.1.0"
stellar-strkey = "=1.0.0"
thiserror = "=1.0.69"
tracing = "=0.1.44"
