[package]
name = "darim_auth"
version = "0.1.0"
edition = "2021"
publish = false

[dependencies]
rand = "=0.8.8"
bcrypt = "=0.19.3"
serde = { version = "1", features = ["derive"] }
serde_json = "1"
actix-web = "=4.15.0"
actix-session = { version = "=0.11.0", features = ["cookie-session"] }
