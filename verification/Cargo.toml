[package]
name = "regexp_extract"
version = "0.1.0"
edition = "2021"
publish = false

[dependencies]
regex = "=1.13.1"
arrow = "=59.3.0"
datafusion-common = "=55.2.0"
datafusion-expr = "=55.2.0"
