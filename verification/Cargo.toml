[package]
name = "editor_support"
version = "0.1.0"
edition = "2021"
publish = false

[dependencies]
serde_json = "1"
anyhow = "1"
smol = "2"
futures = "0.3"
futures-lite = "2"
async-io = "2"
uds_windows = "1"
