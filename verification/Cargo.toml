[package]
name = "daily_digest"
version = "0.1.0"
edition = "2021"
publish = false

[dependencies]
chrono = "=0.4.45"
serde_json = "=1.0.151"
sqlx = { version = "=0.9.0", default-features = false, features = ["postgres", "runtime-tokio", "json", "chrono"] }
serenity = { version = "=0.12.5", default-features = false, features = ["http", "model", "rustls_backend"] }
rig-core = { version = "=0.44.0", features = ["reqwest"] }
tokio = { version = "=1.53.2", features = ["rt-multi-thread", "macros", "time"] }
