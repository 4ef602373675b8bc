[package]
name = "compass"
version = "0.1.0"
edition = "2021"
publish = false

[dependencies]
clap = "*"
reqwest = { version = "*", default-features = false, features = ["blocking", "cookies"] }

[dev-dependencies]
serde_json = "*"
