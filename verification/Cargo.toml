[package]
name = "wikiquery"
version = "0.1.0"
edition = "2021"
publish = false

[dependencies]
chrono = "*"
urlencoding = "*"
serde_json = "*"
futures = "*"
tokio = { version = "*", default-features = false, features = ["rt"] }
reqwest = { version = "*", default-features = false, features = ["json"] }
