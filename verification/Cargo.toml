[package]
name = "policy_evaluator"
version = "0.1.0"
edition = "2021"
publish = false

[dependencies]
anyhow = "=1.0.104"
tokio = { version = "=1.53.2", default-features = false, features = ["sync", "rt-multi-thread", "time"] }
wapc = "=2.2.0"
wasmtime-provider = { version = "=2.25.0", default-features = false, features = ["cache"] }
