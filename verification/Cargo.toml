[package]
name = "nannou_creative_coding"
version = "0.1.0"
edition = "2021"
publish = false

[dependencies]
nannou = "0.19"
instant = "0.1"
serde = { version = "1", features = ["derive"] }
serde_json = "1"
rmcp = { version = "*", features = ["server", "macros", "transport-io"] }
tokio = { version = "1", features = ["macros", "rt-multi-thread", "io-std"] }
anyhow = "1"
wasm-bindgen = "0.2"
web-sys = { version = "0.3", features = ["Window"] }
console_error_panic_hook = "0.1"
