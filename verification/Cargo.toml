[package]
name = "wallet_linker"
version = "0.1.0"
edition = "2021"
publish = false

[dependencies]
chrono = "*"
dialoguer = "*"
eyre = "*"
reqwest = { version = "*", default-features = false, features = ["cookies", "json"] }
serde = { version = "*", features = ["derive"] }
serde_json = "*"
solana-sdk = "*"
tokio = { version = "*", features = ["fs", "io-util", "macros", "rt-multi-thread", "sync", "time"] }
toml = "*"
tracing = "*"
uuid = { version = "*", features = ["v4"] }
