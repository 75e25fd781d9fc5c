[package]
name = "nautilus_alpaca"
version = "0.1.0"
edition = "2021"
publish = false

[dependencies]
ahash = "=0.8.12"
anyhow = "=1.0.104"
arc-swap = "=1.9.3"
async-trait = "=0.1.92"
bon = "=3.9.3"
futures-util = "=0.3.34"
jiff = { version = "=0.2.39", features = ["tzdb-bundle-always"] }
log = "=0.4.35"
rust_decimal = "=1.43.0"
rust_decimal_macros = "=1.40.0"
serde = { version = "=1.0.229", features = ["derive"] }
serde_json = "=1.0.154"
serde_urlencoded = "=0.7.1"
strum = { version = "=0.27.2", features = ["derive"] }
thiserror = "=2.0.21"
tokio = { version = "=1.54.1", features = ["full"] }
tokio-util = "=0.7.20"
ustr = "=1.1.0"
zeroize = { version = "=1.9.1", features = ["derive"] }
