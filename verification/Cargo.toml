[package]
name = "devvoice"
version = "0.1.0"
edition = "2021"
publish = false

[dependencies]
any-tts = { version = "=0.1.3", default-features = false, features = ["vibevoice"] }
anyhow = "=1.0.104"
axum = "=0.8.9"
candle-core = { version = "=0.10.2", default-features = false }
candle-nn = { version = "=0.10.2", default-features = false }
candle-transformers = { version = "=0.10.2", default-features = false }
directories = "=6.0.0"
keyring-core = "=1.0.1"
reqwest = { version = "=0.12.28", default-features = false, features = ["json", "blocking"] }
serde = { version = "=1.0.229", features = ["derive"] }
serde_json = "=1.0.154"
tokenizers = { version = "=0.22.2", default-features = false, features = ["onig"] }
tokio = { version = "=1.54.1", features = ["full"] }
tracing = "=0.1.44"
tracing-subscriber = { version = "=0.3.23", features = ["env-filter"] }
