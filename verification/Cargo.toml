[package]
name = "medium_to_audiobook"
version = "0.1.0"
edition = "2021"
publish = false

[dependencies]
serde_json = "1"
reqwest = "0.12"
tokio = { version = "1", features = ["macros", "rt-multi-thread"] }
postgres = "0.19"
dotenv = "0.15"
