[package]
name = "api_layer_client"
version = "0.1.0"
edition = "2021"
publish = false

[dependencies]
serde_json = "1"
reqwest = { version = "0.12", default-features = false, features = ["json"] }
tokio = { version = "1", default-features = false, features = ["rt", "rt-multi-thread", "macros"] }
clap = { version = "4", features = ["derive"] }
