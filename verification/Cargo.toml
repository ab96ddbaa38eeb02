[package]
name = "tuify"
version = "0.1.0"
edition = "2021"
publish = false

[dependencies]
chrono = "0.4"
color-eyre = "0.6"
crossterm = "*"
dirs = "*"
dotenv = "0.15"
oauth2 = "4.4"
rand = "*"
ratatui = { version = "*", default-features = false, features = ["crossterm"] }
reqwest = { version = "0.11", default-features = false, features = ["blocking", "rustls-tls"] }
serde = { version = "1", features = ["derive"] }
serde_json = "1"
sha2 = "0.10"
tiny_http = "0.12"
