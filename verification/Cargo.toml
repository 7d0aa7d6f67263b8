[package]
name = "camera_core"
version = "0.1.0"
edition = "2021"
publish = false

[dependencies]
image = { version = "0.24", default-features = false, features = ["jpeg"] }
rscam = "0.5"
tokio = { version = "1", features = ["full"] }
warp = "0.3"
futures-util = "0.3"
opencv = "*"
rppal = "*"
