[package]
name = "editor_build_mode"
version = "0.1.0"
edition = "2021"
publish = false

[dependencies]
futures-signals = "*"
tokio = { version = "*", features = ["rt-multi-thread", "time", "sync"] }
