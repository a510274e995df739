[package]
name = "wry_ohos"
version = "0.1.0"
edition = "2021"
publish = false

[dependencies]
cookie = "0.18"
dpi = "0.1"
http = "1"
log = "0.4"
openharmony-ability = { version = "*", features = ["webview"] }
raw-window-handle = { version = "0.6", features = ["std"] }
