[package]
name = "ctrader_connector"
version = "0.1.0"
edition = "2021"
publish = false

[dependencies]
prost = "=0.14.4"
async-trait = "=0.1.92"
tokio = { version = "=1.54.1", features = ["sync", "time", "rt", "macros"] }
serde = { version = "=1.0.229", features = ["derive"] }
serde_json = "=1.0.154"
serde_qs = "=1.1.3"
csv = "=1.4.0"
http = "=1.5.0"
reqwest = { version = "=0.13.5", default-features = false }
error-chain = { version = "=0.12.4", default-features = false }
strum = { version = "=0.28.0", features = ["derive"] }
url = "=2.5.8"
