[package]
name = "tantivy_worker"
version = "0.1.0"
edition = "2021"
publish = false

[dependencies]
tantivy = "=0.24.2"
serde_json = "=1.0.154"
arrow-array = "=60.1.0"
arrow-schema = "=60.1.0"
env_logger = "=0.11.11"
