[package]
name = "duckdb"
version = "0.1.0"
edition = "2021"
publish = false

[dependencies]
chrono = "=0.4.45"
libduckdb-sys = { version = "=1.20000.1", default-features = false, features = ["capi-v2"] }
