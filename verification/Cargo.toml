[package]
name = "keyvaluestore"
version = "0.1.0"
edition = "2021"
publish = false

[dependencies]
axum = { version = "0.6", features = ["headers"] }
httpdate = "1"
ini = "1"
tokio = { version = "1", features = ["macros", "rt-multi-thread"] }
