[package]
name = "financial_analysis"
version = "0.1.0"
edition = "2021"
publish = false

[dependencies]
anyhow = "*"
config = "*"
futures = "*"
reqwest = { version = "*", default-features = false, features = ["json"] }
serde = { version = "*", features = ["derive"] }
serde_json = "*"
tokio = { version = "*", features = ["macros", "rt-multi-thread", "time", "fs", "io-util", "sync"] }
