[package]
name = "finchers"
version = "0.13.5"
edition = "2021"
publish = false

[dependencies]
bytes = "0.4"
futures = "0.1"
http = "0.1"
hyper = "0.12"
mime = "0.3"
percent-encoding = "1.0"
