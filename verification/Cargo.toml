[package]
name = "simulation"
version = "0.1.0"
edition = "2021"
publish = false

[dependencies]
sha2 = "0.10"
rand = "0.9"
rand_distr = "0.5"
anyhow = "1"
borsh = { version = "1", features = ["derive"] }
clap = { version = "4", features = ["derive"] }
csv = "1"
derivative = "2"
rayon = "1"
serde = { version = "1", features = ["derive"] }
serde_json = "1"
thiserror = "2"
tracing = "0.1"
tracing-subscriber = "0.3"
solana-sdk = "*"
spl-token = "*"
spl-associated-token-account = "*"
