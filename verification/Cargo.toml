[package]
name = "runn_yaml_ls"
version = "0.1.0"
edition = "2021"
publish = false

[dependencies]
serde_yaml = "*"
serde = { version = "*", features = ["derive"] }
serde_json = "*"
schemars = "*"
tokio = { version = "*", features = ["full"] }
tower-lsp = "*"
