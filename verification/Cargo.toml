[package]
name = "sum_aggregate"
version = "0.1.0"
edition = "2021"
publish = false

[dependencies]
arrow = { version = "52.0.0", default-features = false }
chrono = { version = "=0.4.38", default-features = false }
datafusion-common = { version = "39.0.0", default-features = false }
datafusion-expr = "39.0.0"
datafusion-physical-expr-common = "39.0.0"
