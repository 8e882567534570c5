[package]
name = "docgen"
version = "0.1.0"
edition = "2021"
publish = false

[dependencies]
chrono = "0.4"
fake = "2"
rand = "0.8"
serde_json = "1"
tera = "1"
