[package]
name = "powermagic"
version = "0.1.0"
edition = "2021"
publish = false

[dependencies]
sqlx = { version = "*", default-features = false, features = ["sqlite", "runtime-tokio"] }
tokio = { version = "*", default-features = false, features = ["rt-multi-thread", "macros"] }
tokio-stream = { version = "*", default-features = false }
