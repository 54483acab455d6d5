[package]
name = "annorepo_client"
version = "0.1.0"
edition = "2021"
publish = false

[dependencies]
serde = "*"
serde_json = "*"
reqwest = { version = "*", default-features = false, features = ["json"] }
