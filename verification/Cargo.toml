[package]
name = "sulis"
version = "0.1.0"
edition = "2021"
publish = false

[dependencies]
rand = "0.7"
rlua = "0.15"
serde = { version = "1", features = ["derive"] }
serde_json = "1"
serde_yaml = "0.8"
log = "0.4"
lazy_static = "1"
