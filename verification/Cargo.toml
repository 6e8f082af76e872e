[package]
name = "mt_webserver"
version = "0.1.0"
edition = "2021"
publish = false

[dependencies]
crossbeam = "*"
memmap2 = "*"
thiserror = "*"
tracing = "*"
tracing-appender = "*"
tracing-subscriber = "*"
