[package]
name = "windows-erg"
version = "0.1.0"
edition = "2021"
publish = false

[dependencies]
quick-xml = { version = "=0.37.5", features = ["serialize"] }
serde = { version = "=1.0.229", features = ["derive"] }
