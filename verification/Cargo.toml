[package]
name = "lending_indexer"
version = "0.1.0"
edition = "2021"
publish = false

[dependencies]
anyhow = "1"

smplx-std = "0.0.12"
sqlx = { version = "0.8", default-features = false, features = ["runtime-tokio", "postgres"] }
tracing = "0.1"
