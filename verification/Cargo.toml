[package]
name = "gmpublisher_core"
version = "0.1.0"
edition = "2021"
publish = false

[dependencies]
anyhow = "1"
dirs = "3"
serde = { version = "1", features = ["derive"] }
serde_json = "1"
steamlocate = "1"
steamworks = "0.7"
tauri = "0.11"
