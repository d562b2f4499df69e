[package]
name = "cucumber-expressions"
version = "0.1.0"
edition = "2021"
publish = false

[dependencies]
derive_more = { version = "0.99.16", default-features = false, features = ["display", "error", "from"] }
either = "1.6"
nom = "7.0"
regex = "1.5"
