[package]
name = "lsp_mcp_rs"
version = "0.1.0"
edition = "2021"
publish = false

[dependencies]
anyhow = "1"
dirs = "*"
lsp-types = "0.97"
rmcp = "*"
serde = { version = "1", features = ["derive"] }
serde_json = "1"
tokio = { version = "1", features = ["io-util", "io-std", "process", "sync", "time", "rt-multi-thread", "macros", "fs"] }
toml = "*"
