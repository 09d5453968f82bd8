[package]
name = "pico_hsm_api_connector"
version = "0.1.0"
edition = "2021"
publish = false

[dependencies]
anyhow = "1"
base64 = "=0.22.1"
chrono = "=0.4.45"
cryptoki = "=0.12.1"
rustls = { version = "0.23", default-features = false, features = ["std", "tls12", "logging", "ring"] }
rustls-pemfile = "2"
serde = { version = "1", features = ["derive"] }
serde_json = "1"
serde_yaml = "0.9"
sha2 = "=0.10.9"
tokio = { version = "1", features = ["rt-multi-thread", "macros", "net", "io-util"] }
tokio-rustls = { version = "0.26", default-features = false, features = ["tls12", "logging", "ring"] }
tracing = "0.1"
tracing-subscriber = { version = "0.3", features = ["env-filter"] }
x509-parser = "=0.18.1"
zeroize = "1"
