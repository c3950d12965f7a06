[package]
name = "fragarach"
version = "0.1.1"
edition = "2021"
publish = false

[dependencies]
serde_json = "=1.0.154"
tokio = { version = "=1.54.1", features = ["macros", "rt-multi-thread", "time", "fs"] }
reqwest = { version = "=0.12.28", default-features = false, features = ["default-tls"] }
duckdb = { version = "=1.20000.0", default-features = false }
sqlx = { version = "=0.8.6", default-features = false, features = ["runtime-tokio", "sqlite", "postgres"] }
dotenv = "=0.15.0"
colored = "=2.2.0"
console = "=0.15.11"
dialoguer = { version = "=0.11.0", default-features = false }
