[package]
name = "xinputdj"
version = "0.1.0"
edition = "2021"
publish = false

[dependencies]
directories = "6"
lazy_static = "1"
midir = "0.10"
rusty-xinput = "1"
serde = { version = "1", features = ["derive"] }
serde_json = "1"
