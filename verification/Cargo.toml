[package]
name = "ibapi"
version = "0.1.0"
edition = "2021"
publish = false

[dependencies]
crossbeam = "*"
anyhow = "*"
log = "*"
time = { version = "*", features = ["formatting", "macros"] }
