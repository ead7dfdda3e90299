[package]
name = "vox_verified"
version = "0.1.0"
edition = "2021"
publish = false

[dependencies]
heck = "=0.5.0"
facet-value = "=0.46.0"
tokio = { version = "=1.54.1", features = ["rt", "macros", "sync", "time", "process", "io-util", "net"] }
