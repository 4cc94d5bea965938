[package]
name = "download_orchestrator"
version = "0.1.0"
edition = "2021"
publish = false

[dependencies]
url = "=2.5.8"
futures = "=0.3.34"
indicatif = "=0.15.0"
reqwest = "=0.11.27"
tokio = { version = "=1.54.1", features = ["rt-multi-thread", "macros", "fs", "io-util"] }
