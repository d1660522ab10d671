[package]
name = "mod_library"
version = "0.1.0"
edition = "2021"
publish = false

[dependencies]
base64 = "=0.22.1"
regex = "=1.13.1"
uuid = { version = "=1.29.0", features = ["v4"] }
zip = "=2.6.1"
serde = { version = "=1.0.229", features = ["derive"] }
serde_json = "=1.0.154"
futures-util = "=0.3.34"
reqwest = { version = "=0.12.28", features = ["stream"] }
enigo = "=0.6.1"
