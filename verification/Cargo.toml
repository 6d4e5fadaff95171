[package]
name = "myore"
version = "0.1.0"
edition = "2021"
publish = false

[dependencies]
colored = "2"
drillx = "~2.1"
indicatif = "0.17"
num_cpus = "=1.17.0"
ore-api = "=2.1.9"
ore-utils = "=2.1.9"
rand = "=0.8.8"
reqwest = { version = "0.11", default-features = false, features = ["json"] }
serde_json = "=1.0.154"
solana-program = "=1.18.26"
solana-sdk = { version = "=1.18.26", default-features = false, features = ["full"] }
tokio = { version = "1", features = ["rt", "time"] }
url = "=2.5.8"
