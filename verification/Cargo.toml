[package]
name = "uds-policy"
version = "0.1.0"
edition = "2021"
publish = false

[dependencies]
nix = { version = "0.30", features = ["socket", "user", "fs"] }
serde_json = "1"
