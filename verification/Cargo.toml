[package]
name = "logger_core"
version = "0.1.0"
edition = "2021"
publish = false

[dependencies]
once_cell = "1"
tracing = "0.1"
tracing-appender = "0.2"
tracing-subscriber = "0.3"
