[package]
name = "otel_collector_loader"
version = "0.1.0"
edition = "2021"
publish = false

[dependencies]
libloading = "*"
tokio = { version = "*", features = ["rt-multi-thread", "macros", "signal"] }
