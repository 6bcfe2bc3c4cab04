[package]
name = "konnektoren_core"
version = "0.1.0"
edition = "2021"
publish = false

[dependencies]
anyhow = "1"
base64 = "0.22"
chrono = "0.4"
js-sys = "0.3"
log = "0.4"
rand = "0.8"
rmp-serde = "1"
serde = { version = "1", features = ["derive"] }
serde_json = "1"
serde-wasm-bindgen = "0.6"
serde_yaml = "0.9"
thiserror = "1"
tracing = "0.1"
wasm-bindgen = "0.2"
web-sys = { version = "0.3", features = ["Window"] }
zip = { version = "2", default-features = false, features = ["deflate"] }
