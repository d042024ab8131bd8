[package]
name = "rjava"
version = "0.1.0"
edition = "2021"
publish = false

[dependencies]
jni = { version = "*", features = ["invocation"] }
proc-macro2 = "1"
quote = "1"
syn = { version = "2", features = ["full"] }
serde = "1"
futures-lite = "2"
tokio = { version = "1", features = ["rt"] }
