[package]
name = "sabaton-mw"
version = "0.1.0"
edition = "2021"
publish = false

[dependencies]
cyclonedds-rs = "*"
someip = "*"
tokio = { version = "1", features = ["full"] }
async-signals = "*"
async-trait = "*"
futures = "*"
futures-util = "*"
libc = "*"
serde = { version = "1", features = ["derive"] }
serde_derive = "1"
thiserror = "*"
toml = "*"
tracing = "*"
