[package]
name = "oracle_attestor"
version = "0.1.0"
edition = "2021"
publish = false

[dependencies]
bls-signatures = "=0.15.0"
sha3 = "=0.12.0"
rand = "=0.8.8"
serde = { version = "*", features = ["derive"] }
serde_json = "*"
chrono = "*"
tokio = { version = "*", features = ["full"] }
tokio-stream = "*"
futures = "*"
async-trait = "*"
reqwest = { version = "*", default-features = false, features = ["json"] }
eyre = "*"
log = "*"
env_logger = "*"

[dev-dependencies]
rayon = "*"
