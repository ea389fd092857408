[package]
name = "command_dispatch"
version = "0.1.0"
edition = "2021"
publish = false

[dependencies]
async-nats = "*"
dotenvy = "*"
futures-util = "*"
tokio = { version = "1", features = ["macros", "rt-multi-thread", "time"] }
