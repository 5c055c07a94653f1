[package]
name = "zenreply"
version = "0.1.0"
edition = "2021"
publish = false

[dependencies]
serde_json = "1"
dotenvy = "0.15"
reqwest = { version = "0.12", default-features = false, features = ["rustls-tls", "stream"] }
tokio = { version = "1", features = ["rt-multi-thread", "macros"] }
futures-util = "0.3"
enigo = "0.2"
