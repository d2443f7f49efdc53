[package]
name = "byob_proxy"
version = "0.1.0"
edition = "2021"
publish = false

[dependencies]
anyhow = "=1.0.104"
async-channel = "2"
async-stream = "=0.3.6"
async-trait = "0.1"
axum = "=0.8.9"
base64 = "=0.22.1"
chrono = "=0.4.45"
futures = "0.3"
futures-util = "=0.3.34"
http = "=1.5.0"
log = "=0.4.35"
prost = "=0.14.4"
prost-types = "=0.14.4"
reqwest = { version = "=0.12.28", default-features = false, features = ["json", "stream", "rustls-tls"] }
serde = { version = "=1.0.229", features = ["derive"] }
serde_json = "=1.0.154"
tokio = { version = "=1.54.1", features = ["rt", "macros", "net"] }
toml_edit = "=0.22.27"
uuid = { version = "=1.29.0", features = ["v4"] }
