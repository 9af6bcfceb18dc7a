[package]
name = "passive_mobs"
version = "0.1.0"
edition = "2021"
publish = false

[dependencies]
crossbeam = "*"
rand = "*"
tokio = { version = "*", features = ["sync"] }
uuid = { version = "*", features = ["v4"] }
