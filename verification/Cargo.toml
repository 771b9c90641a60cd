[package]
name = "rust_tok"
version = "0.1.0"
edition = "2021"
publish = false

[dependencies]
serde_json = "1"
url = "2"
rand = "0.8"
serde = { version = "1", features = ["derive"] }
chromiumoxide = "*"
tokio = { version = "1", features = ["full"] }
futures = "0.3"
async-trait = "0.1"
reqwest = { version = "*", default-features = false }
chrono = { version = "0.4", features = ["serde"] }
