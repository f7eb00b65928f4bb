[package]
name = "jlz"
version = "0.1.0"
edition = "2021"
publish = false

[dependencies]
home = "0.5"
clap = { version = "3", features = ["derive"] }
reqwest = { version = "0.11", features = ["blocking", "json"] }
serde = { version = "1", features = ["derive"] }
serde_derive = "1"
serde_json = "1"
