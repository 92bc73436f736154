[package]
name = "deidentify"
version = "0.1.0"
edition = "2021"
publish = false

[dependencies]
csv-core = "=0.1.13"
uuid = { version = "=1.29.0", features = ["serde", "v4"] }
serde = { version = "=1.0.229", features = ["derive"] }
serde_json = "=1.0.154"
csv = "=1.4.0"
