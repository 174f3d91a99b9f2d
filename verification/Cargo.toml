[package]
name = "smash"
version = "0.1.0"
edition = "2021"
publish = false

[dependencies]
serde_json = "1"
clap = { version = "3", features = ["derive"] }
futures = "0.3"
hyper = { version = "0.14", features = ["client", "http1", "tcp"] }
tokio = { version = "1", features = ["macros", "rt-multi-thread", "time"] }
