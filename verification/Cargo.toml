[package]
name = "roqoqo_qiskit_devices"
version = "0.1.0"
edition = "2021"
publish = false

[dependencies]
roqoqo = "=1.22.2"
ndarray = "=0.17.2"
serde = { version = "=1.0.229", features = ["derive"] }
