[package]
name = "tradebot"
version = "0.1.0"
edition = "2021"
publish = false

[dependencies]
mongodb = { version = "2", default-features = false, features = ["sync"] }
bson = { version = "2", features = ["chrono-0_4"] }
chrono = "0.4"
serde = { version = "1", features = ["derive"] }
once_cell = "1"
