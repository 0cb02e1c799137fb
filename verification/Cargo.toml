[package]
name = "energyleaf_relay"
version = "0.1.0"
edition = "2021"
publish = false

[dependencies]
anyhow = "1"
chrono = "0.4"
dotenvy = "0.15"
energyleaf-proto = "*"
libsql = { version = "*", default-features = false, features = ["core"] }
mac_address = "1"
prost = "*"
reqwest = { version = "*", default-features = false, features = ["json"] }
serde_json = "1"
tokio = { version = "1", features = ["macros", "rt-multi-thread", "sync", "time"] }
