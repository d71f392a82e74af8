[package]
name = "slatedb"
version = "0.1.0"
edition = "2021"
publish = false

[dependencies]
ulid = "*"
tokio = { version = "*", features = ["rt", "rt-multi-thread", "sync", "time", "macros"] }
tracing = "*"
thiserror = "*"
figment = "*"
flatbuffers = "*"
object_store = "*"
