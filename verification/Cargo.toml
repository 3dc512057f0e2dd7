[package]
name = "mongo_ffi_core"
version = "0.1.0"
edition = "2021"
publish = false

[dependencies]
bson = "2"
time = "0.3"
mongocrypt = "*"
opentelemetry = "*"
tokio = { version = "1", features = ["rt-multi-thread", "sync", "macros", "time"] }
futures-util = "0.3"
futures-core = "0.3"
serde = { version = "1", features = ["derive"] }
serde_with = "3"
typed-builder = "*"
derive-where = "1"
