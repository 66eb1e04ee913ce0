[package]
name = "satcache"
version = "0.1.0"
edition = "2021"
publish = false

[dependencies]
base64 = "=0.22.1"
rusqlite = "=0.40.2"
sha3 = "0.11"
