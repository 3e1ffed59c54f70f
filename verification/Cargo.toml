[package]
name = "lestallum"
version = "0.1.0"
edition = "2021"
publish = false

[dependencies]
anyhow = "1"
base64 = "=0.22.1"
bytes = "=1.12.1"
config = { version = "0.15", default-features = false, features = ["toml"] }
reqwest = { version = "=0.12.28", default-features = false, features = ["rustls-tls"] }
rustls = { version = "=0.23.46", default-features = false, features = ["ring", "std"] }
serde = { version = "=1.0.229", features = ["derive"] }
serde_json = "=1.0.154"
thiserror = "=2.0.21"
tokio = { version = "=1.54.1", features = ["rt", "macros"] }
url = "=2.5.8"
uuid = { version = "=1.29.0", features = ["serde"] }
