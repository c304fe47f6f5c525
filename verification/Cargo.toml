[package]
name = "api"
version = "0.1.0"
edition = "2021"
publish = false

[dependencies]
jsonwebtoken = { version = "=11.1.0", features = ["use_pem", "rust_crypto"] }
serde_json = "=1.0.151"
cache_control = "=0.2.0"
base64 = "=0.22.1"
uuid = { version = "=1.27.0", features = ["v4"] }
mailchecker = "=6.0.21"
phonenumber = "=0.3.10"
slug = "=0.1.6"
rand = "=0.10.3"
url = "=2.5.8"
serde = { version = "=1.0.229", features = ["derive"] }
tokio = { version = "=1.53.2", features = ["sync", "rt", "macros", "time"] }
reqwest = { version = "=0.12.28", default-features = false, features = ["blocking", "json", "rustls-tls"] }
