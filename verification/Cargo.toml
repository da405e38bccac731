[package]
name = "auth_service"
version = "0.1.0"
edition = "2021"
publish = false

[dependencies]
hmac = "0.12"
sha2 = "0.10"
jwt = "0.16"
mongodb = "2"
dotenv = "0.15"
rocket = "0.5"
