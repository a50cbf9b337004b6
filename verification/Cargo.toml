[package]
name = "cycle_strategy"
version = "0.1.0"
edition = "2021"
publish = false

[dependencies]
bot-core = "=0.1.0"
rust_decimal = { version = "=1.43.0", features = ["serde"] }
schemars = { version = "0.8", features = ["rust_decimal"] }
serde = { version = "=1.0.229", features = ["derive"] }
