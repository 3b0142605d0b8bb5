[package]
name = "sqlserver_adapter"
version = "0.1.0"
edition = "2021"
publish = false

[dependencies]
arrow-array = "*"
arrow-schema = "*"
serde_json = "1"
url = "2"
