[package]
name = "sqlx-core"
version = "0.3.0"
edition = "2021"
publish = false

[dependencies]
async-stream = "0.3"
byteorder = "1"
futures-core = "0.3"
proc-macro2 = "1"
quote = "1"
syn = { version = "1", features = ["full"] }
