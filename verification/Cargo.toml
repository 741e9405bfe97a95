[package]
name = "xtodo"
version = "0.1.0"
edition = "2021"
publish = false

[dependencies]
clap = "=2.34.0"
failure = "=0.1.8"
failure_derive = "=0.1.8"
reqwest = "=0.9.24"
serde_json = "=1.0.154"
serde_yaml = "0.9"
toml = "0.8"
