[package]
name = "governance_core"
version = "0.1.0"
edition = "2021"
publish = false

[dependencies]
candid = "=0.10.39"
ic-cdk = "=0.13.6"
ic-stable-structures = "=0.6.9"
num-bigint = "=0.4.8"
num-traits = "=0.2.19"
serde = { version = "1", features = ["derive"] }
uuid = "=1.29.0"
