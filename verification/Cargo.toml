[package]
name = "todo_api"
version = "0.1.0"
edition = "2021"
publish = false

[dependencies]
actix-cors = "0.5"
actix-files = "0.5"
actix-web = "3"
actix-web-httpauth = "0.5"
bson = "1"
chrono = "0.4"
dotenv = "0.15"
futures = "0.3"
futures-util = "0.3"
jsonwebtoken = "7"
mongodb = "1"
reqwest = { version = "0.10", features = ["blocking", "json"] }
serde = { version = "1", features = ["derive"] }
serde_json = "1"
tokio = "0.2"
