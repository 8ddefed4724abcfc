[package]
name = "mcp_dispatch"
version = "0.1.0"
edition = "2021"
publish = false

[dependencies]
serde_json = { version = "=1.0.151", features = ["preserve_order"] }
candid = "*"
ic-cdk = "=0.20.3"
ic-cdk-macros = "=0.20.3"
ic-http-certification = "=4.0.0"
