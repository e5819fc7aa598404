[package]
name = "llm_sdk"
version = "0.1.0"
edition = "2021"
publish = false

[dependencies]
anyhow = "=1.0.104"
async-trait = "=0.1.92"
bytes = "=1.12.1"
reqwest = { version = "=0.11.27", default-features = false, features = ["json", "multipart"] }
reqwest-middleware = "=0.2.5"
reqwest-retry = "=0.3.0"
reqwest-tracing = "=0.4.8"
retry-policies = "=0.2.1"
schemars = "=0.8.22"
serde = { version = "=1.0.229", features = ["derive"] }
serde_json = "=1.0.154"
task-local-extensions = "=0.1.4"
tokio = { version = "=1.54.1", features = ["time"] }
tracing = "=0.1.44"
