[package]
name = "es_runway_selector"
version = "0.1.0"
edition = "2021"
publish = false

[dependencies]
indexmap = "*"
encoding = "*"
jiff = "*"
serde = { version = "*", features = ["derive"] }
serde_json = "*"
toml = "*"
tokio = { version = "*", features = ["rt-multi-thread", "macros"] }
reqwest = { version = "*", default-features = false, features = ["rustls-tls"] }
