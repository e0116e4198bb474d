[package]
name = "ovhdata"
version = "0.1.0"
edition = "2021"
publish = false

[dependencies]
sha1 = "*"
url = "*"
serde = { version = "*", features = ["derive"] }
serde_json = "*"
chrono = { version = "*", features = ["serde"] }
clap = { version = "*", features = ["derive"] }
reqwest = { version = "*", default-features = false, features = ["blocking", "json"] }
