[package]
name = "worldline_host"
version = "0.1.0"
edition = "2021"
publish = false

[dependencies]
sha2 = "=0.10.9"
rusqlite = { version = "=0.41.1", features = ["backup"] }
