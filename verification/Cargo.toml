[package]
name = "fp-bindgen"
version = "0.1.0"
edition = "2021"
publish = false

[dependencies]
Inflector = "0.11"
syn = { version = "2", features = ["full"] }

[dev-dependencies]
toml = "0.8"
