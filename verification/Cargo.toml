[package]
name = "optics_base"
version = "0.1.0"
edition = "2021"
publish = false

[dependencies]
hex = "0.4"
tokio = { version = "1", features = ["rt", "time", "macros"] }
tracing = "0.1"
futures-util = "0.3"
async-trait = "0.1"
color-eyre = "0.6"
