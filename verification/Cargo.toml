[package]
name = "cc-plugin-aorus"
version = "0.1.3"
edition = "2021"
publish = false

[dependencies]
anyhow = "1"
log = "0.4"
tokio = { version = "1", features = ["sync", "time", "macros", "rt"] }
tokio-util = "0.7"
tonic = { version = "0.12", default-features = false }
zbus = { version = "5", default-features = false, features = ["tokio"] }
