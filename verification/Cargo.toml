[package]
name = "loyalty_core"
version = "0.1.0"
edition = "2021"
publish = false

[dependencies]
chrono = "0.4"
uuid = { version = "1", features = ["v4"] }
tower = "0.4"
async-trait = "0.1"
thiserror = "1"
