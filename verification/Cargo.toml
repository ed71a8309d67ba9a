[package]
name = "n64romconvert"
version = "0.1.0"
edition = "2021"
publish = false

[dependencies]
clap = { version = "4", features = ["derive"] }
colored = "2"
pyo3 = "0.20"
serde = { version = "1", features = ["derive"] }
