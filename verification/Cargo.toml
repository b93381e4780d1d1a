[package]
name = "smithy_orchestrator"
version = "0.1.0"
edition = "2021"
publish = false

[dependencies]
num-integer = "=0.1.47"

[dev-dependencies]
time = { version = "0.3", features = ["parsing"] }
