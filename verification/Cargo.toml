[package]
name = "sentry_test_server"
version = "0.1.0"
edition = "2021"
publish = false

[dependencies]
actix-rt = "2"
actix-web = { version = "4", default-features = false, features = ["macros"] }
crossbeam-channel = "0.5"
sentry-types = "*"
serde = { version = "1", features = ["derive"] }
serde_json = "1"
