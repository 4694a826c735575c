[package]
name = "versioned_api"
version = "0.1.0"
edition = "2021"
publish = false

[dependencies]
versions = "*"
anyhow = "*"
ispm-wrapper = "*"
