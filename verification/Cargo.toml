[package]
name = "spending"
version = "0.1.0"
edition = "2021"
publish = false

[dependencies]
actix-cors = "*"
actix-web = { version = "*", default-features = false, features = ["macros"] }
actix-web-prom = "*"
mime_guess = "*"
serde = { version = "*", features = ["derive"] }
serde_json = "*"
