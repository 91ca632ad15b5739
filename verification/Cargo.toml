[package]
name = "reqr"
version = "0.1.0"
edition = "2021"
publish = false

[dependencies]
clap = "2"
hyper = "0.12"
hyper-tls = "0.3"
serde = "1"
serde_json = "1"
syntect = { version = "4.6", default-features = false, features = ["default-fancy"] }
url = "1"
