[package]
name = "nft_auction"
version = "0.1.0"
edition = "2021"
publish = false

[dependencies]
bincode = "=1.3.3"
cosmwasm-std = { version = "=0.14.1", features = ["iterator"] }
cosmwasm-storage = "=0.14.1"
schemars = "=0.8.22"
serde = { version = "=1.0.229", features = ["derive"] }
thiserror = "=1.0.69"
