[package]
name = "task_scheduler"
version = "0.1.0"
edition = "2021"
publish = false

[dependencies]
async-trait = "*"
candid = "*"
ic-cdk = "*"
parking_lot = "*"
pocket-ic = "*"
serde = "*"
tokio = { version = "*", features = ["rt"] }
