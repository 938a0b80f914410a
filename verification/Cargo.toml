[package]
name = "edge_installer"
version = "0.1.0"
edition = "2021"
publish = false

[dependencies]
dialoguer = "*"
tokio = { version = "*", features = ["macros", "rt-multi-thread", "time", "sync"] }
