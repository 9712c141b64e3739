[package]
name = "nacos_bridge"
version = "0.1.0"
edition = "2021"
publish = false

[dependencies]
nacos-sdk = { version = "*", features = ["auth-by-http"] }
napi = { version = "2", features = ["napi8", "async"] }
napi-derive = "2"
async-trait = "*"
lazy_static = "*"
tracing-appender = "*"
tracing-subscriber = "*"
