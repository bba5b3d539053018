[package]
name = "ic_test_utils"
version = "0.1.0"
edition = "2021"
publish = false

[dependencies]
candid = { version = "=0.10.37", features = ["value"] }
serde_json = "=1.0.151"
ic-agent = "=0.49.2"
garcon = "=0.2.3"
dirs = "=7.0.0"
