[package]
name = "webview_ipc"
version = "0.1.0"
edition = "2021"
publish = false

[dependencies]
dirs-next = "2"
http = "1"
serde = { version = "1", features = ["derive"] }
serde_json = "1"
tauri-utils = "2"
url = "2"
