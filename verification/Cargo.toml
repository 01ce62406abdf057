[package]
name = "celld_storage"
version = "0.1.0"
edition = "2021"
publish = false

[dependencies]
anyhow = "1"
bytes = "1"
futures-util = "0.3"
hyper = "1"
object_store = { version = "0.11", features = ["aws"] }
