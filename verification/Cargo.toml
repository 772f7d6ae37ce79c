[package]
name = "rbcachefs"
version = "0.1.0"
edition = "2021"
publish = false

[dependencies]
anyhow = "*"
clap = { version = "*", features = ["derive"] }
libc = "*"
tracing = "*"
tracing-subscriber = { version = "*", features = ["env-filter"] }
