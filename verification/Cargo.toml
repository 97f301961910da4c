[package]
name = "framework"
version = "0.1.0"
edition = "2021"
publish = false

[dependencies]
anyhow = "=1.0.104"
clap = { version = "=4.6.7", features = ["derive"] }
num-rational = "=0.4.2"
serde = { version = "=1.0.229", features = ["derive"] }
serde_ignored = "=0.1.14"
serde_json = "=1.0.154"
tracing = "=0.1.44"
unc-account-id = "=0.7.2"
unc-config-utils = "=0.12.2"
unc-crypto = "=0.12.2"

[dev-dependencies]
tempfile = "=3.27.0"
