[package]
name = "chatroom"
version = "0.1.0"
edition = "2021"
publish = false

[dependencies]
axum = { version = "*", default-features = false }
console_error_panic_hook = "*"
futures-util = "*"
http = "*"
tower-service = "*"
wasm-bindgen-futures = "*"
worker = { version = "*", features = ["http"] }
