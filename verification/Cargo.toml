[package]
name = "grok_arch"
version = "0.1.0"
edition = "2021"
publish = false

[dependencies]
urlencoding = "=2.1.3"
blake3 = { version = "=1.8.7", features = ["pure"] }
indexmap = "=2.14.2"
dunce = "=1.0.5"
agent-client-protocol = { version = "0.4", features = ["unstable"] }
ratatui = "=0.30.2"
