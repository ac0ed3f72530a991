[package]
name = "rag_search"
version = "0.1.0"
edition = "2021"
publish = false

[dependencies]
anyhow = "=1.0.104"
chat-prompts = "=0.35.3"
clap = { version = "=4.6.7", features = ["derive"] }
hyper = { version = "=0.14.32", features = ["full"] }
log = "=0.4.34"
once_cell = "=1.21.4"
serde = { version = "=1.0.229", features = ["derive"] }
serde_json = "=1.0.154"
serde_urlencoded = "=0.7.1"
tokio = { version = "=1.54.1", features = ["rt", "macros", "net", "time", "io-util"] }
wasi-logger = "=0.1.2"
