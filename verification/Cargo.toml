[package]
name = "acme_dns01"
version = "0.1.0"
edition = "2021"
publish = false

[dependencies]
hickory-resolver = "0.24"
reqwest = { version = "0.12", default-features = false, features = ["json"] }
serde = { version = "1", features = ["derive"] }
tokio = { version = "1", features = ["macros", "rt-multi-thread", "time"] }
