[package]
name = "runwasi_shims"
version = "0.1.0"
edition = "2021"
publish = false

[dependencies]
wasmtime = "=46.0.3"
toml = "=0.9.8"
serde = { version = "=1.0.229", features = ["derive"] }
anyhow = "=1.0.104"
log = "=0.4.35"
