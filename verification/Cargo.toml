[package]
name = "sen_core"
version = "0.1.0"
edition = "2021"
publish = false

[dependencies]
blake3 = { version = "1", default-features = false, features = ["pure"] }
bincode = { version = "2", features = ["derive"] }
thiserror = "2"
wasm-bindgen = "0.2"
js-sys = "0.3"
