[package]
name = "rdetoolkit_core"
version = "0.1.0"
edition = "2021"
publish = false

[dependencies]
chardetng = "=1.0.0"
encoding_rs = "=0.8.42"
image = "=0.25.10"
