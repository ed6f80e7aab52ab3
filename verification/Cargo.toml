[package]
name = "computer_use"
version = "0.1.0"
edition = "2021"
publish = false

[dependencies]
tokio = { version = "1", features = ["sync", "time", "macros", "rt", "rt-multi-thread"] }
