[package]
name = "rosu-pp-js"
version = "0.1.0"
edition = "2021"
publish = false

[dependencies]
rosu-pp = "*"
rosu-mods = { version = "*", features = ["serde"] }
serde = { version = "1", features = ["derive"] }
wasm-bindgen = "0.2"
serde-wasm-bindgen = "*"
