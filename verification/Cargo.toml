[package]
name = "determinism"
version = "0.1.0"
edition = "2021"
publish = false

[dependencies]
libc = "0.2"
rand = "0.9"
tokio = { version = "1", features = ["rt", "time"] }
turmoil = "*"
