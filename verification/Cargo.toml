[package]
name = "icp_bridge"
version = "0.1.0"
edition = "2021"
publish = false

[dependencies]
alloy-primitives = "*"
ic-cdk = "=0.20.3"
ic-cdk-timers = "=1.0.0"
