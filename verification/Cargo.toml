[package]
name = "pyo3_asyncio"
version = "0.13.0"
edition = "2021"
publish = false

[dependencies]
futures = "0.3"
once_cell = "1"
pyo3 = { version = "0.13", features = ["abi3-py36", "auto-initialize"] }
