[package]
name = "revm_py"
version = "0.1.0"
edition = "2021"
publish = false

[dependencies]
alloy-json-abi = "=0.4.2"
ethers-core = "=2.0.14"
pyo3 = "=0.25.1"
revm = { version = "19", default-features = false, features = ["std"] }
ruint = { version = "=1.21.1", features = ["pyo3"] }
serde_json = "=1.0.154"
