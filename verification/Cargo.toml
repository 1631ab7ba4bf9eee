[package]
name = "mini_backend_database"
version = "0.1.0"
edition = "2021"
publish = false

[dependencies]
uuid = "*"
chrono = "*"
serde = "*"
serde_json = "*"
sqlx = { version = "*", default-features = false, features = ["sqlite"] }
