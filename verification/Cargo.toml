[package]
name = "wasm_interp"
version = "0.1.0"
edition = "2021"
publish = false

[dependencies]
leb128 = "0.2"
monostate = "*"
serde = { version = "1", features = ["derive"] }
serde_json = "1"
