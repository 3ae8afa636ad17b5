[package]
name = "llm_stream"
version = "0.1.0"
edition = "2021"
publish = false

[dependencies]
serde_json = "*"
serde = { version = "*", features = ["derive"] }
futures = "*"
reqwest-eventsource = "*"
