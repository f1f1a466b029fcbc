[package]
name = "jdtls_adapter"
version = "0.1.0"
edition = "2021"
publish = false

[dependencies]
anyhow = "=1.0.104"
async-compression = { version = "=0.4.51", features = ["futures-io", "gzip"] }
async-tar = { version = "=0.4.2", default-features = false }
async-trait = "=0.1.92"
futures = "=0.3.34"
log = "=0.4.34"
regex = "=1.13.1"
serde_json = "=1.0.154"
smol = "=1.3.0"
