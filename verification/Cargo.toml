[package]
name = "avtime"
version = "0.1.0"
edition = "2021"
publish = false

[dependencies]
chrono = "0.4"
clap = { version = "4", features = ["derive"] }
crossterm = "0.28"
ratatui = "0.29"
rsntp = "*"
tokio = { version = "1", features = ["rt-multi-thread", "macros", "time", "sync"] }
