[package]
name = "pubsub_subscriber"
version = "0.1.0"
edition = "2021"
publish = false

[dependencies]
async-channel = "=2.5.0"
google-cloud-gax = "0.19"
google-cloud-googleapis = { version = "=0.16.1", features = ["pubsub"] }
tokio = { version = "=1.54.1", features = ["rt", "rt-multi-thread", "macros", "time", "sync"] }
tokio-stream = "0.1"
tokio-util = "=0.7.20"
tracing = "0.1"
