[package]
name = "ws_handle"
version = "0.1.0"
edition = "2021"
publish = false

[dependencies]
futures = "*"
url = "*"
wasm-bindgen = "*"
web-sys = { version = "*", features = ["BinaryType", "CloseEvent", "DomException", "WebSocket"] }
