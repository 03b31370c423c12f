[package]
name = "battlesnake_tests"
version = "0.1.0"
edition = "2021"
publish = false

[dependencies]
serde_json = "1"
anyhow = "1"
colored = "*"
glob = "0.3"
structopt = "0.3"

[dependencies.reqwest]
version = "*"
default-features = false
features = ["blocking"]
