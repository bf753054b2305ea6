[package]
name = "llm-daemon"
version = "0.1.0"
edition = "2021"
publish = false

[dependencies]
url = "=2.5.8"
anyhow = "=1.0.104"
daemonize = "=0.5.0"
futures = "=0.3.34"
tempfile = "=3.27.0"
tokio = { version = "=1.54.1", features = ["rt", "net", "process", "signal", "time", "io-util", "macros", "fs"] }
tracing = "=0.1.44"
tracing-subscriber = { version = "=0.3.23", features = ["local-time"] }
pyo3 = "0.20"
pyo3-asyncio = { version = "0.20", features = ["tokio-runtime"] }
neon = "1"
napi = "2"
napi-derive = "2"
