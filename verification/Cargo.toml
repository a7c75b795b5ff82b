[package]
name = "stubborn_io"
version = "0.1.0"
edition = "2021"
publish = false

[dependencies]
bytes = "0.4"
log = "0.4"
tokio = "=0.2.0-alpha.6"
