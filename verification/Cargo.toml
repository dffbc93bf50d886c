[package]
name = "user_backend"
version = "0.1.0"
edition = "2021"
publish = false

[dependencies]
actix-web = "4"
bcrypt = "*"
diesel = { version = "2", features = ["postgres", "r2d2"] }
dotenvy = "*"
jsonwebtoken = "9"
serde = { version = "1", features = ["derive"] }
serde_json = "1"
