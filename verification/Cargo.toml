[package]
name = "mcp_oauth"
version = "0.1.0"
edition = "2021"
publish = false

[dependencies]
sha2 = "*"
base64 = "*"
axum = "*"
tokio = { version = "*", features = ["full"] }
rand = "*"
anyhow = "*"
serde = { version = "*", features = ["derive"] }
