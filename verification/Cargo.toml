[package]
name = "ore_cli"
version = "0.1.0"
edition = "2021"
publish = false

[dependencies]
clap = { version = "4", features = ["derive"] }
jito-searcher-client = "*"
solana-program = "1.18"
solana-sdk = "1.18"
tokio = { version = "1", features = ["rt-multi-thread", "macros", "time"] }
