[package]
name = "faxtop"
version = "0.1.0"
edition = "2021"
publish = false

[dependencies]
chrono = "0.4"
uuid = { version = "0.8", features = ["v4", "serde"] }
pbkdf2 = "0.6"
scraper = "0.12"
serde = { version = "1", features = ["derive"] }
serde_json = "1"
actix-web = { version = "3", default-features = false }
actix-session = "0.4"
actix-cors = "0.5"
actix-rt = "1"
reqwest = { version = "0.10", default-features = false }
lettre = { version = "0.9", default-features = false, features = ["smtp-transport"] }
lettre_email = "0.9"
native-tls = "0.2"
derive_more = "0.99"
dotenv = "0.15"
env_logger = { version = "0.8", default-features = false }
log = "0.4"
