[package]
name = "raspisanie"
version = "0.1.0"
edition = "2021"
publish = false

[dependencies]
actix-web = "*"
bytes = "*"
calamine = "*"
json = "*"
reqwest = { version = "*", default-features = false }
ron = "*"
scraper = "*"
serde = { version = "*", features = ["derive"] }
