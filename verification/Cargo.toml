[package]
name = "runchain"
version = "0.1.0"
edition = "2021"
publish = false

[dependencies]
sha2 = "=0.10.9"
rs_merkle = "=1.4.2"
ed25519-dalek = "=2.2.0"
ed25519 = "=2.2.3"
rayon = "=1.10.0"
chrono = "=0.4.45"
serde = { version = "=1.0.229", features = ["derive"] }
serde_json = "=1.0.151"
tokio = { version = "=1.44.2", features = ["full"] }
once_cell = "=1.21.4"
