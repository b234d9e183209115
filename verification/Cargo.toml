[package]
name = "atellica"
version = "0.1.0"
edition = "2021"
publish = false

[dependencies]
bytes = "1"
chrono = "0.4"
futures = "0.3"
regex-lite = "*"
structopt = "0.3"
strum = { version = "*", features = ["derive"] }
tokio = { version = "1", features = ["rt-multi-thread", "macros", "time"] }
tokio-serial = "*"
tokio-util = { version = "0.7", features = ["codec"] }
