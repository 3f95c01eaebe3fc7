[package]
name = "sat_composites"
version = "0.1.0"
edition = "2021"
publish = false

[dependencies]
base64 = "0.21"
xz2 = "0.1"
zip = { version = "0.6", default-features = false, features = ["deflate"] }
serde_json = "1"
serde = { version = "1", features = ["derive"] }
bytes = "1"
toml = "0.8"
lazy_static = "1"
tokio = { version = "1", features = ["rt", "rt-multi-thread"] }
reqwest = { version = "0.11", default-features = false, features = ["blocking", "json", "rustls-tls"] }
google-cloud-storage = { version = "0.15", default-features = false, features = ["rustls-tls", "auth"] }
opencv = "0.88"
rocket = "0.5"
