[package]
name = "wasm_service"
version = "0.1.0"
edition = "2021"
publish = false

[dependencies]
serde_json = "1"
url = "2"
chrono = "0.4"
async-trait = "0.1"
wasm-bindgen = "0.2"
js-sys = "0.3"
web-sys = { version = "0.3", features = ["Headers", "console"] }
wasm-bindgen-futures = "0.4"
