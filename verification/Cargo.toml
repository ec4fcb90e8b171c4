[package]
name = "outbound_policy"
version = "0.1.0"
edition = "2021"
publish = false

[dependencies]
ahash = "0.8"
async-trait = "0.1"
chrono = "0.4"
futures = "0.3"
