[package]
name = "mtg_drivers"
version = "0.1.0"
edition = "2021"
publish = false

[dependencies]
ansi_term = "*"
btleplug = "*"
futures = "*"
log = "*"
pretty_env_logger = "*"
serde = { version = "*", features = ["derive"] }
tokio = { version = "*", features = ["rt", "time"] }
uuid = "*"
