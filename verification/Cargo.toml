[package]
name = "ledger_transport_tcp"
version = "0.1.0"
edition = "2021"
publish = false

[dependencies]
ledger-apdu = "*"
tokio = { version = "1", features = ["net", "io-util"] }
