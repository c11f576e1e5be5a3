[package]
name = "echo_server"
version = "0.1.0"
edition = "2021"
publish = false

[dependencies]
a2 = "*"
async-trait = "*"
axum = "*"
base64 = "*"
chrono = "*"
envy = "*"
hyper = "*"
serde = { version = "*", features = ["derive"] }
serde_json = "*"
sqlx = { version = "0.7", default-features = false, features = ["runtime-tokio-rustls", "postgres", "chrono", "macros"] }
