[package]
name = "dewpoint"
version = "0.1.0"
edition = "2021"
publish = false

[dependencies]
celes = "=2.8.2"
chrono = "=0.4.45"
ip2location = "=0.6.1"
reqwest = { version = "=0.13.5", default-features = false, features = ["blocking", "json"] }
serde = { version = "=1.0.229", features = ["derive"] }
serde_json = "=1.0.151"
