[package]
name = "hypern_db"
version = "0.1.0"
edition = "2021"
publish = false

[dependencies]
dashmap = "*"
sqlx = { version = "*", default-features = false, features = ["runtime-tokio", "postgres", "mysql", "sqlite", "chrono", "json"] }
tokio = { version = "*", default-features = false, features = ["rt-multi-thread", "sync", "time"] }
futures = "*"
chrono = { version = "*", default-features = false, features = ["std", "clock"] }
serde_json = "*"
