[package]
name = "badge_api"
version = "0.1.0"
edition = "2021"
publish = false

[dependencies]
jsonwebtoken = "9"
serde_json = "1"
uuid = { version = "1", features = ["v4"] }
serde = { version = "1", features = ["derive"] }
actix-web = "4"
actix-cors = "0.7"
dotenvy = "0.15"
firestore = "*"
