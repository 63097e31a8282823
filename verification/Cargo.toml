[package]
name = "helipad"
version = "0.1.0"
edition = "2021"
publish = false

[dependencies]
email_address = "=0.2.9"
lnd = "=0.1.6"
lru = { version = "=0.18.5", default-features = false }
rand = "=0.8.8"
reqwest = { version = "=0.12.28", default-features = false, features = ["rustls-tls"] }
serde_json = "=1.0.151"
sha2 = "=0.10.9"
tokio = { version = "=1.53.2", features = ["full"] }
