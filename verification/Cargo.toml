[package]
name = "rpc_gateway"
version = "0.1.0"
edition = "2021"
publish = false

[dependencies]
jsonwebtoken = "9"
serde_json = "1"
actix-web = "4"
web3 = { version = "0.19", default-features = false, features = ["http"] }
