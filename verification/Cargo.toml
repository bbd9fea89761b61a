[package]
name = "recipe_client"
version = "0.1.0"
edition = "2021"
publish = false

[dependencies]
serde = { version = "1", features = ["derive"] }
url = "2"
gloo = "0.8"
gloo-storage = "0.2"
wasm-bindgen-futures = "0.4"

[dev-dependencies]
regex = "1"
