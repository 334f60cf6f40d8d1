[package]
name = "canister_storage"
version = "0.1.0"
edition = "2021"
publish = false

[dependencies]
unicode-segmentation = "*"
serde = "*"
candid = "*"
ic-cdk = "*"
ic-stable-structures = "*"
