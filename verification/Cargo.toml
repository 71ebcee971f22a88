[package]
name = "quote_report"
version = "0.1.0"
edition = "2021"
publish = false

[dependencies]
anyhow = "1"
chrono = "0.4"
clap = { version = "4", features = ["derive"] }
num-format = "0.4"
rust_decimal = "1"
statrs = "*"
tabled = "*"
tokio = { version = "1", features = ["macros", "rt-multi-thread"] }
yfinance-rs = "*"
