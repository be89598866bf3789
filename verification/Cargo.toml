[package]
name = "waitforit"
version = "0.2.1"
edition = "2021"
publish = false

[dependencies]
clap = "2"
ureq = { version = "1", default-features = false }
url = "2"
