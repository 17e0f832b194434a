[package]
name = "fd_agave"
version = "0.1.0"
edition = "2021"
publish = false

[dependencies]
semver = "=1.0.28"
solana-account = "=5.4.0"
solana-pubkey = "=4.4.0"
solana-sdk-ids = "=3.1.0"
solana-hash = "=4.7.0"
solana-message = "=6.0.0"
solana-epoch-schedule = "=3.4.0"
solana-keypair = "=4.0.0"
solana-sanitize = "=3.0.1"
solana-serde-varint = "=3.0.1"
solana-short-vec = "*"
bv = { version = "0.11", features = ["serde"] }
serde = { version = "=1.0.229", features = ["derive"] }
prost = "=0.14.4"
protosol = "=18.0.0"
crossbeam-channel = "=0.5.17"
console = "=0.16.6"
indicatif = "=0.18.6"
fd-lock = "=4.0.4"
rustls = { version = "=0.23.46", default-features = false, features = ["ring", "std"] }
