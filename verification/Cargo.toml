[package]
name = "ollama_applet"
version = "0.1.0"
edition = "2021"
publish = false

[dependencies]
anyhow = "*"
async-stream = "*"
base64 = "*"
bytes = "*"
chrono = "*"
dirs = "*"
futures = "*"
reqwest = { version = "*", default-features = false, features = ["json", "stream"] }
ron = "*"
serde = { version = "*", features = ["derive"] }
serde_json = "*"
tokio = { version = "*", features = ["full"] }
