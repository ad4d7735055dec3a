[package]
name = "buttplug"
version = "0.1.0"
edition = "2021"
publish = false

[dependencies]
tokio = { version = "1", features = ["sync", "rt", "rt-multi-thread", "time", "macros"] }
futures = "0.3"
futures-timer = "3"
rusty-xinput = "*"
