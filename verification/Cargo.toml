[package]
name = "vrl_assignment"
version = "0.1.0"
edition = "2021"
publish = false

[dependencies]
bytes = "*"
chrono = "*"
serde = { version = "1", features = ["derive"] }
syslog_loose = "*"
toml = "*"
