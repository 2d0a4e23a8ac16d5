[package]
name = "plan_rewrite"
version = "0.1.0"
edition = "2021"
publish = false

[dependencies]
arrow = { version = "5", default-features = false }
