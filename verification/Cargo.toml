[package]
name = "bank_ledger"
version = "0.1.0"
edition = "2021"
publish = false

[dependencies]
axum = "=0.8.9"
chrono = { version = "=0.4.45", features = ["serde"] }
dotenv = "=0.15.0"
serde = { version = "=1.0.229", features = ["derive"] }
sqlx = { version = "=0.9.0", default-features = false, features = ["postgres", "runtime-tokio", "chrono"] }
tokio = { version = "=1.53.2", features = ["macros", "rt-multi-thread", "signal", "net"] }
tracing = "=0.1.44"
tracing-subscriber = "=0.3.23"
