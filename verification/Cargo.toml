[package]
name = "wasm_request"
version = "0.1.0"
edition = "2021"
publish = false

[dependencies]
serde = "1"
serde_derive = "1"
serde_json = "1"
wasm-bindgen = { version = "=0.2.100", features = ["serde-serialize"] }
wasm-bindgen-futures = "0.4"
web-sys = { version = "0.3", features = ["FormData", "Headers", "Request", "RequestInit", "RequestMode", "Response", "Storage", "Window"] }
