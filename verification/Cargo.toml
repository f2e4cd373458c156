[package]
name = "mcp_inspector"
version = "0.1.0"
edition = "2021"
publish = false

[dependencies]
futures = "=0.3.34"
futures-util = "=0.3.34"
reqwest = { version = "=0.12.28", default-features = false, features = ["json", "stream"] }
rmcp = { version = "=0.8.5", features = ["client", "transport-streamable-http-client"] }
serde = { version = "=1.0.229", features = ["derive"] }
serde_json = "=1.0.154"
sse-stream = "=0.2.6"
tauri = { version = "=2.12.5", default-features = false }
tokio = { version = "=1.54.1", features = ["sync"] }
