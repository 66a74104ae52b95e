[package]
name = "dns_mock_server"
version = "0.1.0"
edition = "2021"
publish = false

[dependencies]
hickory-proto = "*"
hickory-server = "*"
tokio = { version = "*", features = ["net", "rt", "time"] }
async-trait = "*"
