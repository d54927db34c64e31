[package]
name = "rustify_ml"
version = "0.1.0"
edition = "2021"
publish = false

[dependencies]
rustpython-parser = "*"
heck = "*"
anyhow = "1"
clap = { version = "4", features = ["derive"] }
tracing = "0.1"
tracing-subscriber = { version = "0.3", features = ["env-filter"] }
tempfile = "3"
git2 = { version = "*", default-features = false }
pyo3 = "0.21"
