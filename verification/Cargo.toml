[package]
name = "juge_launcher"
version = "0.1.0"
edition = "2021"
publish = false

[dependencies]
chrono = "*"
uuid = { version = "*", features = ["v4"] }
serde = { version = "*", features = ["derive"] }
serde_json = "*"
zip = { version = "*", default-features = false, features = ["deflate"] }
toml = "*"
walkdir = "*"
directories = "*"
sha2 = "*"
hex = "*"
