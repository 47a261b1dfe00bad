[package]
name = "night_owl"
version = "0.1.0"
edition = "2021"
publish = false

[dependencies]
actix-web = "=4.18.1"
dotenv = "=0.15.0"
rusqlite = "=0.40.2"
serde_json = { version = "=1.0.154", features = ["float_roundtrip"] }
