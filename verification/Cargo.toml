[package]
name = "bim_mes"
version = "0.1.0"
edition = "2021"
publish = false

[dependencies]
uuid = { version = "1", features = ["v4", "serde"] }
chrono = { version = "0.4", features = ["serde"] }
serde = { version = "1", features = ["derive"] }
serde_json = "1"
sqlx = { version = "0.8", default-features = false, features = ["runtime-tokio", "postgres", "uuid", "chrono", "bigdecimal", "json", "macros"] }
actix-web = { version = "4", default-features = false, features = ["macros"] }
actix-cors = "0.7"
dotenv = "0.15"
env_logger = "0.11"
