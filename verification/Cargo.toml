[package]
name = "auth_window"
version = "0.1.0"
edition = "2021"
publish = false

[dependencies]
actix-cors = "0.7"
actix-web = "4"
argon2 = "0.5"
chrono = "0.4"
dotenv = "0.15"
futures = "0.3"
jsonwebtoken = { version = "9", default-features = false }
rand_core = { version = "0.6", features = ["getrandom"] }
serde = { version = "1", features = ["derive"] }
serde_json = { version = "1", features = ["preserve_order"] }
uuid = { version = "1", features = ["v4"] }
