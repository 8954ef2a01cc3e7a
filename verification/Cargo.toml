[package]
name = "rte_api"
version = "0.1.0"
edition = "2021"
publish = false

[dependencies]
serde = "1"
serde_json = "1"
anyhow = "1"
chrono = "0.4"
oauth2 = { version = "4", default-features = false, features = ["reqwest", "rustls-tls"] }
reqwest = { version = "0.11", default-features = false, features = ["blocking", "rustls-tls"] }
polars = { version = "*", default-features = false }
