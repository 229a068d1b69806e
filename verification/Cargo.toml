[package]
name = "tabular_export"
version = "0.1.0"
edition = "2021"
publish = false

[dependencies]
csv = "=1.4.0"
tokio = { version = "=1.54.1", features = ["rt-multi-thread", "macros"] }
