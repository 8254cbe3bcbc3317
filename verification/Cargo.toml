[package]
name = "atlas_canary"
version = "0.1.0"
edition = "2021"
publish = false

[dependencies]
sha256 = { version = "1", default-features = false }
serde_json = "1"
url = "2"
uuid = { version = "1", features = ["v4"] }
serde = { version = "1", features = ["derive"] }
tungstenite = { version = "0.20", features = ["rustls-tls-webpki-roots"] }
tokio = { version = "1", features = ["macros", "rt-multi-thread"] }
lambda_runtime = "*"
log = "0.4"
simple_logger = "*"
