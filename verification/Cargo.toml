[package]
name = "porwarder"
version = "0.1.0"
edition = "2021"
publish = false

[dependencies]
aws-config = "=1.13.0"
aws-runtime = "=1.10.2"
aws-sdk-elasticloadbalancingv2 = "=1.132.0"
aws-sdk-rds = { version = "1", default-features = false, features = ["rt-tokio"] }
aws-types = "=1.7.0"
color-eyre = "=0.6.5"
crossterm = "=0.28.1"
ratatui = "=0.29.0"
tokio = { version = "=1.54.1", features = ["macros", "rt-multi-thread"] }
