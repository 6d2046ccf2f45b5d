[package]
name = "alice"
version = "0.1.0"
edition = "2021"
publish = false

[dependencies]
serde_json = "=1.0.154"
futures-core = "=0.3.34"
futures-util = "=0.3.34"
async-stream = "=0.3.6"
reqwest = { version = "=0.12.28", default-features = false, features = ["json", "stream", "rustls-tls"] }
glob = "=0.3.4"
