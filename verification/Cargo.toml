[package]
name = "secure_update"
version = "0.1.0"
edition = "2021"
publish = false

[dependencies]
anyhow = "1"
base64 = "0.22"
blake3 = "1"
chrono = "0.4"
clap = { version = "4", features = ["derive"] }
ed25519-dalek = { version = "2", features = ["rand_core"] }
hex = "0.4"
pqcrypto-dilithium = "0.5"
pqcrypto-traits = "0.3"
rand = "0.8"
reqwest = { version = "0.12", default-features = false, features = ["blocking", "json", "rustls-tls"] }
serde = { version = "1", features = ["derive"] }
serde_json = "1"
sha3 = "0.10"
thiserror = "1"
toml = "0.8"
uuid = { version = "1", features = ["v4"] }

[dev-dependencies]
bincode = "1"
