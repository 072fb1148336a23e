[package]
name = "authcore"
version = "0.1.0"
edition = "2021"
publish = false

[dependencies]
actix-web = { version = "4", default-features = false, features = ["macros"] }
bcrypt = "=0.19.3"
chrono = { version = "0.4", features = ["serde"] }
dotenv = "*"
env_logger = "*"
jsonwebtoken = "=9.3.1"
log = "*"
serde = { version = "1", features = ["derive"] }
serde_json = "=1.0.151"
sqlx = { version = "0.8", default-features = false, features = ["runtime-tokio", "postgres", "chrono", "uuid"] }
uuid = "1"
