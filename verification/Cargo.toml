[package]
name = "targetz"
version = "0.1.0"
edition = "2021"
publish = false

[dependencies]
sqlx = { version = "=0.8.6", default-features = false, features = ["sqlite", "runtime-tokio", "derive"] }
thiserror = "=2.0.21"
dotenv = "=0.15.0"
tokio = { version = "=1.54.1", features = ["rt"] }
