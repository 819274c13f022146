[package]
name = "rs_ipc"
version = "0.1.0"
edition = "2021"
publish = false

[dependencies]
rustix = { version = "1", features = ["fs", "mm", "shm", "thread"] }
pyo3 = { version = "0.26", features = ["extension-module"] }
rayon = "1"
