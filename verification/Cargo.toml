[package]
name = "pika_core"
version = "0.1.0"
edition = "2021"
publish = false

[dependencies]
hex = "=0.4.3"
rand = "=0.8.8"
nostr-sdk = "=0.45.4"
flume = "=0.11.1"
anyhow = "=1.0.104"
tracing = "=0.1.44"
tracing-subscriber = { version = "=0.3.23", features = ["env-filter"] }
rusqlite = { version = "*", features = ["bundled"] }
serde_json = "1"
keyring-core = "*"
mdk-core = "*"
mdk-sqlite-storage = "*"
openh264 = "*"
