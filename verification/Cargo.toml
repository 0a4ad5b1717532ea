[package]
name = "bcvk"
version = "0.1.0"
edition = "2021"
publish = false

[dependencies]
camino = "=1.2.6"
color-eyre = "=0.6.5"
libsystemd = "=0.7.2"
serde = { version = "=1.0.229", features = ["derive"] }
tokio = { version = "=1.54.1", features = ["macros", "net", "rt", "signal"] }
tracing = "=0.1.44"
zlink = "=0.8.0"
