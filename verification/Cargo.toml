[package]
name = "rentik_sync"
version = "0.1.0"
edition = "2021"
publish = false

[dependencies]
sha2 = "=0.10.9"
hex = "=0.4.3"
base64 = "=0.22.1"
chrono = "=0.4.45"
zip = { version = "=8.6.0", default-features = false, features = ["deflate"] }
reqwest = { version = "=0.12.28", default-features = false }

[dev-dependencies]
serde_json = "1"
