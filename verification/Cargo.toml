[package]
name = "rust_scaper"
version = "0.1.0"
edition = "2021"
publish = false

[dependencies]
scraper = { version = "=0.29.0", default-features = false }
reqwest = { version = "=0.13.5", features = ["blocking"] }
