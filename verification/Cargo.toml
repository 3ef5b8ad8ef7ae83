[package]
name = "proof_pipeline"
version = "0.1.0"
edition = "2021"
publish = false

[dependencies]
anyhow = "=1.0.104"
bincode = "=1.3.3"
clap = { version = "=4.6.7", features = ["derive"] }
rand = "=0.8.8"
risc0-circuit-recursion = { version = "=1.2.6", default-features = false }
risc0-zkp = { version = "=1.2.6", features = ["prove"] }
risc0-zkvm = "=1.2.6"
