[package]
name = "todo_app"
version = "0.1.0"
edition = "2021"

[dependencies]
toml = "=0.8.23"
uuid = { version = "=1.29.0", features = ["v4"] }
