[package]
name = "sql_generator"
version = "0.1.0"
edition = "2021"
publish = false

[dependencies]
ratatui = "0.29"
serde = { version = "1", features = ["derive"] }
strum = { version = "0.26", features = ["derive"] }
toml = "0.8"
