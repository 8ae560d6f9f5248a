[package]
name = "httpx_transport"
version = "0.1.0"
edition = "2021"
publish = false

[dependencies]
reqwest = { version = "=0.11.27", default-features = false, features = ["blocking", "stream", "rustls-tls"] }
reqwest-middleware = "=0.2.5"
once_cell = "=1.21.4"
bytes = "=1.12.1"
futures = "=0.3.34"
tokio = { version = "=1.54.1", features = ["rt-multi-thread", "sync", "macros", "time"] }
serde_json = "=1.0.154"
thiserror = "=1.0.69"
tracing-subscriber = "=0.3.23"
pyo3 = { version = "=0.20.3", features = ["extension-module"] }
pyo3-asyncio = { version = "=0.20.0", features = ["tokio-runtime"] }
