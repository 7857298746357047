[package]
name = "lgtv_ip_control"
version = "0.1.0"
edition = "2021"
publish = false

[dependencies]
openssl = "0.10"
rand = "0.8"
regex = "1"
thiserror = "2"
tokio = { version = "1", features = ["full"] }
trait-variant = "0.1"
