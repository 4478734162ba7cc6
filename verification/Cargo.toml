[package]
name = "ckbtc_management"
version = "0.1.0"
edition = "2021"
publish = false

[dependencies]
candid = "0.8"
ic-cdk = "0.6"
serde = { version = "1", features = ["derive"] }
prost = "0.11"
