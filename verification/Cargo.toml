[package]
name = "konfig_rust"
version = "0.1.0"
edition = "2021"
publish = false

[dependencies]
serde = { version = "1", features = ["derive"] }
serde_json = "1"
serde_yaml = "*"
toml = "*"
thiserror = "*"
syn = "2"
quote = "1"
proc-macro2 = "1"
