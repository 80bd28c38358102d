[package]
name = "chess_engine"
version = "0.1.0"
edition = "2021"
publish = false

[dependencies]
bcrypt = "*"
chrono = { version = "0.4", features = ["serde"] }
deadpool-postgres = "*"
dotenv = "*"
jsonwebtoken = "*"
lazy_static = "1"
regex = "1"
serde = { version = "1", features = ["derive"] }
serde_json = "1"
tokio = { version = "1", features = ["macros", "rt-multi-thread"] }
tokio-postgres = { version = "0.7", features = ["with-chrono-0_4"] }
tracing-subscriber = "0.3"
uuid = { version = "1", features = ["v4"] }
validator = { version = "*", features = ["derive"] }
warp = "0.3"
