[package]
name = "bronze_magpie"
version = "0.1.0"
edition = "2021"
publish = false

[dependencies]
anyhow = "=1.0.104"
axum = "=0.8.9"
instant-acme = "=0.8.5"
rcgen = "=0.14.10"
rustls = "=0.23.46"
rustls-pemfile = "=2.2.0"
rustls-rustcrypto = "=0.0.2-alpha"
time = "=0.3.55"
tokio = { version = "=1.54.1", features = ["full"] }
tokio-rustls = "=0.26.6"
tracing = "=0.1.44"
tracing-appender = "=0.2.5"
tracing-subscriber = { version = "=0.3.23", features = ["env-filter"] }
x509-parser = "=0.17.0"
