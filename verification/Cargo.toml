[package]
name = "catalog_records"
version = "0.1.0"
edition = "2021"
publish = false

[dependencies]
regex = "1"
chrono = { version = "0.4", default-features = false }
xml-rs = "0.8"
zip = { version = "0.6", default-features = false, features = ["deflate"] }
