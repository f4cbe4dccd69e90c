[package]
name = "nullith"
version = "0.1.0"
edition = "2021"
publish = false

[dependencies]
axum = "=0.7.9"
http-body-util = "=0.1.5"
js-sys = "=0.3.107"
log = "=0.4.35"
reqwest = { version = "=0.12.28", default-features = false, features = ["rustls-tls"] }
serde = { version = "=1.0.229", features = ["derive"] }
serde_json = "=1.0.154"
thiserror = "=1.0.69"
tokio = { version = "=1.54.1", features = ["macros", "rt-multi-thread", "net", "sync"] }
tokio-postgres = "=0.7.18"
vercel_runtime = "=2.4.1"
wasm-bindgen = "=0.2.130"
worker = { version = "=0.8.7", features = ["d1"] }
