[package]
name = "softwatch"
version = "0.1.0"
edition = "2021"
publish = false

[dependencies]
lldb = "*"
serde = { version = "1", features = ["derive"] }
serde_json = "1"
