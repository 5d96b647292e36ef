[package]
name = "rock"
version = "0.1.0"
edition = "2021"
publish = false

[dependencies]
secret-cosmwasm-std = "0.10"
secret-cosmwasm-storage = "0.10"
secret-toolkit = "0.3"
schemars = "0.7"
serde = { version = "1.0", default-features = false, features = ["derive"] }
