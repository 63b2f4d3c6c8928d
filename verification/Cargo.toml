[package]
name = "user_server"
version = "0.1.0"
edition = "2021"
publish = false

[dependencies]
anyhow = "*"
argon2 = "=0.6.0"
axum = "=0.8.9"
bytesize = "*"
clap = { version = "*", features = ["derive"] }
config = "*"
jsonwebtoken = { version = "=11.1.0", features = ["rust_crypto"] }
prost = "=0.14.4"
serde = { version = "*", features = ["derive"] }
serde_json = "=1.0.151"
sqlx = { version = "=0.9.0", default-features = false, features = ["runtime-tokio", "postgres", "chrono", "macros"] }
tokio = { version = "*", features = ["full"] }
tonic = "=0.14.6"
tonic-prost = "*"
tower-http = { version = "=0.7.1", features = ["auth", "cors", "trace", "timeout", "normalize-path"] }
tracing = "*"
tracing-appender = "*"
tracing-subscriber = "*"
xid = "=1.1.1"
