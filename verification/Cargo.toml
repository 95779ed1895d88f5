[package]
name = "twirp_rs"
version = "0.1.0"
edition = "2021"
publish = false

[dependencies]
futures = "0.1"
hyper = "0.12"
prost = "*"
prost-build = "*"
proc-macro2 = "1"
quote = "1"
serde_json = "1"
