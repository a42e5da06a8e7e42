[package]
name = "actuator_control"
version = "0.1.0"
edition = "2021"
publish = false

[dependencies]
tokio = { version = "1", features = ["rt-multi-thread", "macros", "sync", "time"] }
tokio-serial = "5.4"
crossterm = "0.28"
ratatui = "0.29"
