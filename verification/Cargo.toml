[package]
name = "nidavellir"
version = "0.1.0"
edition = "2021"
publish = false

[dependencies]
bollard = "=0.21.1"
futures = "*"
tokio = { version = "=1.53.2", features = ["full"] }
sqlx = { version = "=0.9.0", default-features = false, features = ["runtime-tokio", "postgres", "uuid", "chrono"] }
serde = { version = "=1.0.229", features = ["derive"] }
serde_json = "=1.0.151"
uuid = { version = "=1.27.0", features = ["v4"] }
chrono = "=0.4.45"
