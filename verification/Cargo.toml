[package]
name = "jito_shredstream_pump_bot"
version = "0.1.0"
edition = "2021"
publish = false

[dependencies]
solana-sdk = "2"
bincode = "1"
bs58 = "0.5"
base64 = "0.22"
serde_json = "1"
anyhow = "1"
tokio = { version = "1", features = ["full"] }
clap = { version = "4", features = ["derive", "env"] }
dotenvy = "0.15"
tracing = "0.1"
tracing-subscriber = "0.3"
moka = { version = "0.12", features = ["future", "sync"] }
futures = "0.3"
