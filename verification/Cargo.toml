[package]
name = "document_commands"
version = "0.1.0"
edition = "2021"
publish = false

[dependencies]
http = "=1.5.0"
serde_json = "=1.0.154"
tauri = { version = "2", default-features = false }
