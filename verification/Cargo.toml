[package]
name = "loreweaver"
version = "0.1.0"
edition = "2021"
publish = false

[dependencies]
tiktoken-rs = "0.5"
chrono = "0.4"
async-openai = "0.14"
async-trait = "0.1"
tokio = { version = "1", features = ["rt-multi-thread", "macros", "sync"] }
serde = { version = "1", features = ["derive"] }
serde_json = "1"
thiserror = "1"
tracing = "0.1"
redis = "0.23"
clap = { version = "4", features = ["derive"] }
