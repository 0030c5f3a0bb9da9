[package]
name = "pot_game"
version = "0.1.0"
edition = "2021"
publish = false

[dependencies]
actix-cors = "0.6"
actix-web = "4"
rand = "0.8"
serde = { version = "1", features = ["derive"] }
