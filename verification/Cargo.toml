[package]
name = "limbus_launcher"
version = "0.1.0"
edition = "2021"
publish = false

[dependencies]
md-5 = "0.10"
zip = { version = "2", default-features = false, features = ["deflate"] }
dashmap = "6"
reqwest = { version = "0.12", default-features = false, features = ["json", "stream", "rustls-tls"] }
tokio = { version = "1", features = ["sync", "rt", "macros"] }
futures = "0.3"
serde = { version = "1", features = ["derive"] }
toml = "0.8"
tempfile = "3"
log = "0.4"
anyhow = "1"
