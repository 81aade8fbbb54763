[package]
name = "aptos_indexer_processor_example"
version = "0.1.0"
edition = "2021"
publish = false

[dependencies]
serde_json = "1"
reqwest = { version = "0.12", default-features = false, features = ["rustls-tls"] }
tokio = { version = "1", features = ["rt-multi-thread"] }
anyhow = "1"
num_cpus = "1"
tracing = "0.1"
jemallocator = "0.5"
