[package]
name = "matrix_bot_help"
version = "0.1.0"
edition = "2021"
publish = false

[dependencies]
toml = "=1.1.6"
anyhow = "*"
clap = { version = "*", features = ["derive"] }
daemonize = "*"
matrix-sdk = { version = "=0.18.0", default-features = false, features = ["markdown"] }
tokio = { version = "*", features = ["macros", "rt-multi-thread", "time"] }
