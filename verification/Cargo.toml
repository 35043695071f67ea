[package]
name = "atlas_plan"
version = "0.1.0"
edition = "2021"
publish = false

[dependencies]
serde = { version = "1", features = ["derive"] }
serde_json = "1"
half = "2"
parking_lot = "0.12"
