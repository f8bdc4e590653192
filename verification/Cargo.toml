[package]
name = "crypto_botters"
version = "0.1.0"
edition = "2021"
publish = false

[dependencies]
bytes = "=1.12.1"
futures-util = { version = "=0.3.34", features = ["sink"] }
hex = "=0.4.3"
hmac = "=0.12.1"
log = "=0.4.34"
parking_lot = "=0.12.5"
rand = "=0.8.8"
reqwest = { version = "=0.11.27", default-features = false }
serde = { version = "=1.0.229", features = ["derive"] }
serde_json = "=1.0.154"
serde_urlencoded = "=0.7.1"
sha2 = "=0.10.9"
thiserror = "=1.0.69"
tokio = { version = "=1.54.1", features = ["rt", "sync", "time", "macros", "net"] }
tokio-tungstenite = "=0.20.1"
url = "=2.5.8"
