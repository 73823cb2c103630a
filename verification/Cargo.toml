[package]
name = "roolah"
version = "0.1.0"
edition = "2021"
publish = false

[dependencies]
rust_decimal = { version = "1", default-features = false, features = ["std"] }
time = { version = "0.3", default-features = false, features = ["std"] }
sqlx = { version = "0.8", default-features = false, features = ["sqlite", "runtime-tokio", "time"] }
tokio = { version = "1", default-features = false, features = ["rt-multi-thread", "macros"] }
miette = { version = "7", default-features = false }
thiserror = "1"
