[package]
name = "pot"
version = "0.1.0"
edition = "2021"
publish = false

[dependencies]
url = "2"
anyhow = "1"
serde = { version = "1", features = ["derive"] }
serde_json = "1"
tokio = { version = "1", features = ["macros", "rt-multi-thread", "sync", "process", "time", "io-util"] }
reqwest = { version = "0.11", default-features = false, features = ["rustls-tls"] }
dotenv = "0.15"
