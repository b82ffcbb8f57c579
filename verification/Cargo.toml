[package]
name = "rayspace"
version = "0.1.0"
edition = "2021"
publish = false

[dependencies]
rand = "0.8"
ammonia = "*"
serde_json = "1"
chrono = "0.4"
serde = { version = "1", features = ["derive"] }
reqwest = { version = "0.12", default-features = false, features = ["json"] }
sqlx = { version = "*", default-features = false, features = ["postgres", "runtime-tokio", "chrono"] }
actix-web = "4"
actix-session = { version = "*", features = ["cookie-session"] }
actix-files = "0.6"
dotenv = "0.15"
hex = "0.4"
