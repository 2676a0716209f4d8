[package]
name = "bn_bookticker"
version = "0.1.0"
edition = "2021"
publish = false

[dependencies]
chrono = "=0.4.45"
dashmap = "=6.2.1"
http = "=1.5.0"
serde = { version = "=1.0.229", features = ["derive"] }
serde_json = "=1.0.154"
tokio = { version = "=1.54.1", features = ["full"] }
reqwest = { version = "=0.12.28", default-features = false, features = ["rustls-tls"] }
tokio-tungstenite = { version = "=0.30.0", features = ["rustls-tls-webpki-roots"] }
futures = "=0.3.34"
tracing = "=0.1.44"
tracing-subscriber = "=0.3.23"
ws-tool = { version = "=0.11.1", default-features = false, features = ["async_tls_rustls"] }
