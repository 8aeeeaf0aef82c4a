[package]
name = "xenith"
version = "0.1.0"
edition = "2021"
publish = false

[dependencies]
libc = "0.2"
mac-addr = "*"
qapi = { version = "*", features = ["qmp", "async-tokio-all"] }
rand = "0.9"
serde = { version = "1", features = ["derive"] }
thiserror = "2"
tokio = { version = "1", features = ["full"] }
toml = "*"
tracing = "0.1"
