[package]
name = "gas_oracle"
version = "0.1.0"
edition = "2021"
publish = false

[dependencies]
ethers-core = "2.0"
reqwest = { version = "0.11", default-features = false, features = ["json"] }
serde = { version = "1", features = ["derive"] }
serde_json = "1"
async-trait = "0.1"
tracing = "0.1"
url = "2"
