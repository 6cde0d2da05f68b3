[package]
name = "device-simulator-mcp"
version = "0.1.0"
edition = "2021"
publish = false

[dependencies]
anyhow = "*"
async-trait = "*"
base64 = "*"
rmcp = { version = "*", features = ["server", "transport-io", "macros"] }
serde = { version = "*", features = ["derive"] }
tokio = { version = "*", features = ["macros", "rt-multi-thread", "process", "fs", "net", "time", "io-std"] }
tracing-subscriber = { version = "*", features = ["env-filter", "fmt"] }
