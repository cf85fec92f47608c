[package]
name = "rquickjs_core"
version = "0.1.0"
edition = "2021"
publish = false

[dependencies]
async-task = "=4.7.1"
crossbeam-channel = "=0.5.17"
flume = "=0.11.1"
futures-lite = "=2.6.1"
pin-project-lite = "=0.2.17"
smol = "2"
tokio = { version = "1", default-features = false, features = ["rt"] }
