[package]
name = "lgn_worker"
version = "0.1.0"
edition = "2021"
publish = false

[dependencies]
alloy = { version = "*", default-features = false }
hex = "0.4"
blake3 = { version = "1", features = ["pure"] }
semver = "1"
uuid = "1"
rand = "0.8"
bincode = "1"
exponential-backoff = "*"
anyhow = "1"
tokio = { version = "1", features = ["rt-multi-thread", "macros", "fs", "io-util", "time"] }
reqwest = { version = "0.12", default-features = false }
clap = { version = "4", features = ["derive", "env"] }
serde = { version = "1", features = ["derive"] }
serde_json = "1"
tracing = "0.1"
tracing-subscriber = { version = "0.3", features = ["env-filter"] }
metrics = "*"
config = { version = "*", default-features = false, features = ["toml"] }
