[package]
name = "sqlzen"
version = "0.1.0"
edition = "2021"
publish = false

[dependencies]
async-trait = "=0.1.92"
mysql_async = "=0.37.1"
serde = { version = "=1.0.229", features = ["derive"] }
tokio = { version = "=1.54.1", features = ["rt", "sync"] }
tokio-postgres = "=0.7.18"
tokio-rusqlite = { version = "=0.8.0", features = ["column_decltype"] }
