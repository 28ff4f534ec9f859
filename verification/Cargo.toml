[package]
name = "levfs"
version = "0.1.0"
edition = "2021"
publish = false

[dependencies]
serde = { version = "1", features = ["derive"] }
serde_json = "1"
serde_yaml = "=0.9.34"
dirs = "=7.0.0"
tokio = { version = "1", features = ["full"] }
turso = { version = "=0.8.1", features = ["sync"] }
anyhow = "1"
async-trait = "*"
log = "*"
tracing = "*"
