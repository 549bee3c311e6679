[package]
name = "wavecord"
version = "1.1.0"
edition = "2021"
publish = false

[dependencies]
serde = "=1.0.229"
serde_json = { version = "=1.0.154", features = ["preserve_order"] }
percent-encoding = "=2.3.2"
reqwest = { version = "=0.12.28", default-features = false, features = ["json"] }
tokio = { version = "=1.54.1", features = ["rt-multi-thread", "sync", "time", "macros"] }
tokio-tungstenite = "=0.24.0"
futures-util = "=0.3.34"
tracing = "=0.1.44"
thiserror = "=2.0.21"
pyo3 = "=0.23.5"
pyo3-async-runtimes = { version = "=0.23.0", features = ["tokio-runtime"] }
pythonize = "=0.23.0"
