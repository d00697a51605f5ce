[package]
name = "vertex_geyser_plugin"
version = "0.1.0"
edition = "2021"
publish = false

[dependencies]
agave-geyser-plugin-interface = "=2.2.20"
anyhow = "=1.0.104"
clap = { version = "=4.6.7", features = ["derive"] }
clap_derive = "=4.6.7"
crossbeam-channel = "=0.5.17"
log = "=0.4.35"
openssl = "=0.10.82"
postgres = "=0.19.14"
postgres-openssl = "=0.5.3"
serde = { version = "=1.0.229", features = ["derive"] }
serde_derive = "=1.0.229"
serde_json = "=1.0.154"
solana-logger = "=2.3.1"
thiserror = "=2.0.21"
