[package]
name = "tg_flows"
version = "0.1.0"
edition = "2021"
publish = false

[dependencies]
serde_json = "1"
http_req = "*"
urlencoding = "2"
