[package]
name = "regions"
version = "0.1.0"
edition = "2021"
publish = false

[dependencies]
garde = { version = "*", features = ["derive"] }
indexmap = "2"
uuid = { version = "1", features = ["serde"] }
chrono = { version = "0.4", default-features = false, features = ["std", "clock", "serde"] }
serde = { version = "1", features = ["derive"] }
serde_json = "1"
anyhow = "1"
async-trait = "0.1"
tracing = "0.1"
axum = "*"
sqlx = { version = "*", default-features = false, features = ["postgres", "uuid", "chrono", "runtime-tokio", "derive", "macros"] }
utoipa = { version = "*", features = ["uuid", "chrono"] }
utoipa-axum = "*"
