[package]
name = "himalaya_core"
version = "0.1.0"
edition = "2021"
publish = false

[dependencies]
anyhow = "*"
clap = { version = "*", features = ["derive"] }
comfy-table = "*"
crossterm = "*"
dirs = "*"
email_address = "*"
inquire = "*"
petgraph = "*"
serde = { version = "*", features = ["derive"] }
serde_json = "*"
shellexpand-utils = "*"
toml = "*"
