[package]
name = "mcp_parser"
version = "0.1.0"
edition = "2021"
publish = false

[dependencies]
serde_json = "1"
serde = { version = "1", features = ["derive"] }
thiserror = "1"
pyo3 = "0.22"
