[package]
name = "wasmedge_plugin_sdk"
version = "0.1.0"
edition = "2021"
publish = false

[dependencies]
thiserror = "=1.0.69"
log = "=0.4.34"
lazy_static = "=1.5.1"
paste = "=1.0.15"
