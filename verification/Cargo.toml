[package]
name = "favspace"
version = "0.1.0"
edition = "2021"
publish = false

[dependencies]
url = "2"
sha2 = "0.10"
hex = "0.4"
base64 = "0.22"
mime_guess = "2"
scraper = "*"
image = { version = "0.25", default-features = false, features = ["png"] }
rusqlite = { version = "*", features = ["bundled"] }
reqwest = { version = "0.12", default-features = false }
serde = { version = "1", features = ["derive"] }
open = "5"
