[package]
name = "batis4sqlx"
version = "0.1.0"
edition = "2021"
publish = false

[dependencies]
sqlx = { version = "*", default-features = false, features = ["mysql", "runtime-tokio", "chrono", "rust_decimal"] }
serde = "*"
serde_json = "*"
rust_decimal = "*"
