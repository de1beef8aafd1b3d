[package]
name = "vpn_core"
version = "0.1.0"
edition = "2021"
publish = false

[dependencies]
anyhow = "1"
thiserror = "*"
tokio = { version = "1", features = ["rt-multi-thread", "macros", "net", "sync"] }
wintun = "*"
