[package]
name = "open4x"
version = "0.1.0"
edition = "2021"
publish = false

[dependencies]
ulid = "1"
serde = { version = "1", features = ["derive"] }
serde_json = "1"
reqwest = { version = "0.12", default-features = false, features = ["blocking", "json"] }
tokio = { version = "1", features = ["macros", "rt-multi-thread", "net"] }
axum = "0.8"
tower-http = { version = "0.6", features = ["cors", "fs"] }
sqlx = { version = "0.8", default-features = false, features = ["sqlite", "runtime-tokio", "migrate"] }
chrono = "0.4"
async-trait = "0.1"
clap = { version = "4", features = ["derive"] }
