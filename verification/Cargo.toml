[package]
name = "ic_eth"
version = "0.1.0"
edition = "2021"
publish = false

[dependencies]
ic-cdk = "0.13"
serde_json = "1"
url = "2"
