[package]
name = "logto"
version = "0.1.0"
edition = "2021"
publish = false

[dependencies]
anyhow = "=1.0.104"
axum = "=0.8.9"
axum-extra = { version = "=0.10.3", features = ["cookie"] }
base64 = "=0.22.1"
hex = "=0.4.3"
http = "=1.5.0"
jsonwebtoken = "=9.3.1"
log = "=0.4.35"
reqwest = { version = "=0.12.28", default-features = false, features = ["json", "rustls-tls"] }
serde = { version = "=1.0.229", features = ["derive"] }
serde_json = { version = "=1.0.154", features = ["raw_value"] }
sha256 = "=1.6.0"
time = "=0.3.55"
urlencoding = "=2.1.3"
uuid = { version = "=1.29.0", features = ["v4"] }
