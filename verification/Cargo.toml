[package]
name = "goal_intent_data"
version = "0.1.0"
edition = "2021"
publish = false

[dependencies]
tokio-postgres = "0.7"
