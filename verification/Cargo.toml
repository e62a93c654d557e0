[package]
name = "codestral_test_rs"
version = "0.1.0"
edition = "2021"
publish = false

[dependencies]
serde_json = "*"
serde = { version = "*", features = ["derive"] }
tokio = { version = "*", features = ["rt-multi-thread", "macros"] }
reqwest = { version = "*", default-features = false, features = ["json", "rustls-tls"] }
clap = { version = "*", features = ["derive"] }
chrono = "*"
shellexpand = "*"
log = "*"
env_logger = "*"
indicatif = "*"
