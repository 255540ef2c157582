[package]
name = "placement_core"
version = "0.1.0"
edition = "2021"
publish = false

[dependencies]
rand = "0.8"
serde = { version = "1", features = ["derive"] }
strum = "0.21"
strum_macros = "0.21"
