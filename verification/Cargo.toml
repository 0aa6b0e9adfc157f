[package]
name = "concentratord_core"
version = "0.1.0"
edition = "2021"
publish = false

[dependencies]
uuid = { version = "*", features = ["v4"] }
prost-types = "*"
chirpstack_api = { version = "*", default-features = false }
serde = { version = "*", features = ["derive"] }
