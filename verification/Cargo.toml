[package]
name = "webview_bridge"
version = "0.1.0"
edition = "2021"
publish = false

[dependencies]
http = "=1.5.0"
serde = { version = "=1.0.229", features = ["derive"] }
serde_json = { version = "=1.0.154", features = ["raw_value"] }
serialize-to-javascript = "=0.1.2"
raw-window-handle = "=0.6.2"
wry = "=0.57.1"
