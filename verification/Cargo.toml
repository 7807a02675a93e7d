[package]
name = "versioninfo"
version = "0.1.0"
edition = "2021"
publish = false

[dependencies]
embed-resource = "1"
