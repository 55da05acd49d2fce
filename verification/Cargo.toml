[package]
name = "retry_backoff"
version = "0.1.0"
edition = "2021"
publish = false

[dependencies]
azure_core = { version = "=0.3.0", default-features = false }
futures = "=0.3.34"
rand = "=0.8.8"
