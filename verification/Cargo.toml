[package]
name = "chain_decoder"
version = "0.1.0"
edition = "2021"
publish = false

[dependencies]
serde = { version = "1", features = ["derive"] }
serde_json = "1"
tokio = { version = "1", features = ["rt-multi-thread", "macros", "time"] }
reqwest = { version = "0.11", default-features = false, features = ["rustls-tls"] }
indicatif = "0.17"
structopt = "0.3"
mongodb = "2"
