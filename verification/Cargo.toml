[package]
name = "pretty_json_log"
version = "0.1.0"
edition = "2021"
publish = false

[dependencies]
chrono = "0.4"
clap = { version = "4", features = ["derive"] }
colored = "2"
dateparser = "0.2"
serde_json = { version = "1", features = ["preserve_order"] }
signal-hook = { version = "0.3", features = ["extended-siginfo"] }
