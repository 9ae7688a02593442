[package]
name = "query_executor"
version = "0.1.0"
edition = "2021"
publish = false

[dependencies]
arrow = { version = "=53.4.1", default-features = false }
tokio = { version = "1", default-features = false, features = ["sync"] }
