[package]
name = "task_tracker"
version = "0.1.0"
edition = "2021"
publish = false

[dependencies]
clap = { version = "4", features = ["derive"] }
colored = "2"
rusqlite = { version = "*", features = ["bundled", "time"] }
time = { version = "0.3", features = ["local-offset"] }
