[package]
name = "css_values"
version = "0.1.0"
edition = "2021"
publish = false

[dependencies]
cssparser = "=0.35.0"
string_cache = "=0.8.9"
precomputed-hash = "=0.1.1"
serde = { version = "=1.0.229", features = ["derive"] }
