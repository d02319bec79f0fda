[package]
name = "rocket-dependency-injection"
version = "0.1.0"
edition = "2021"
publish = false

[dependencies]
rocket = { version = "0.5", default-features = false }
syn = { version = "2", features = ["full"] }
quote = "1"
proc-macro2 = "1"
async-trait = "0.1"
