[package]
name = "soroban_cost_lints"
version = "0.1.0"
edition = "2021"
publish = false

[dependencies]
anyhow = "1"
clap = { version = "4", features = ["derive"] }
serde = { version = "1", features = ["derive"] }
serde_json = "1"
tabled = "0.15"
toml = "0.8"
ureq = "2"
clippy_utils = "*"
dylint_linting = "*"
