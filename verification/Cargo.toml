[package]
name = "cosy_gameapi"
version = "0.1.0"
edition = "2021"
publish = false

[dependencies]
actix-web = { version = "4", default-features = false, features = ["macros"] }
chrono = "0.4"
futures = "0.3"
reqwest = "0.12"
serde = { version = "1", features = ["derive"] }
serde_json = "1"
steamgriddb_api = "*"
tokio = { version = "1", features = ["sync"] }
