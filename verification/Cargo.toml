[package]
name = "tx_manager"
version = "0.1.0"
edition = "2021"
publish = false

[dependencies]
anyhow = "=1.0.104"
hex = "=0.4.3"
parity-scale-codec = "=3.7.5"
serde = "=1.0.229"
serde_json = "=1.0.154"
sp-core = "=43.0.0"
sp-crypto-hashing = "=0.1.0"
sp-keyring = "=49.0.0"
sp-runtime = "=49.0.0"
sp-version = "=47.0.0"
tokio = { version = "=1.54.1", features = ["macros", "rt-multi-thread"] }
