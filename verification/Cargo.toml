[package]
name = "planets_federation"
version = "0.1.0"
edition = "2021"
publish = false

[dependencies]
bigdecimal = "*"
num-bigint = "*"
rust_decimal = "*"
serde_json = "*"
chrono = "*"
