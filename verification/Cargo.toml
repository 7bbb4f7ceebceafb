[package]
name = "chap"
version = "0.1.0"
edition = "2021"
publish = false

[dependencies]
crossterm = "0.28"
memmap2 = "0.9"
ratatui = "0.29"
tokio = { version = "1", features = ["macros", "rt-multi-thread", "sync", "time"] }
unicode-width = "0.2"
