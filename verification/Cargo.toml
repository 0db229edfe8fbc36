[package]
name = "imgstore"
version = "0.1.0"
edition = "2021"
publish = false

[dependencies]
image = "0.24"
base64 = "0.21"
serde = { version = "1", features = ["derive"] }
actix-web = "4"
actix-multipart = "0.6"
awc = "3"
futures = "0.3"
diesel = { version = "2", features = ["postgres", "r2d2"] }
dotenv = "0.15"
env_logger = "0.10"
log = "0.4"
