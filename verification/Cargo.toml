[package]
name = "ycsb_rs"
version = "0.1.0"
edition = "2021"
publish = false

[dependencies]
rand = "=0.10.3"
fasthash = "=0.4.0"
serde = { version = "=1.0.229", features = ["derive"] }
serde_json = "=1.0.151"
indicatif = "=0.18.6"

[dev-dependencies]
twox-hash = "=2.1.5"
