[package]
name = "tushare"
version = "0.1.0"
edition = "2021"
publish = false

[dependencies]
serde_json = "1"
minreq = "2"
polars = { version = "0.20", default-features = false }
