[package]
name = "serde_lite"
version = "0.1.0"
edition = "2021"
publish = false

[dependencies]
indexmap = "2"
serde = "1"
syn = "1"
quote = "1"
proc-macro2 = "1"

[dev-dependencies]
serde_json = "1"
