[package]
name = "dooropen"
version = "0.1.0"
edition = "2021"
publish = false

[dependencies]
async-trait = "0.1"
clap = "2"
env_logger = "0.9"
hyper = { version = "0.14", features = ["full"] }
log = "0.4"
openssl = "0.10"
rppal = "0.14"
swagger = "6"
tokio = { version = "1", features = ["full"] }
tokio-openssl = "0.6"
