[package]
name = "locktick"
version = "0.1.0"
edition = "2021"
publish = false

[dependencies]
backtrace = "0.3"
simple_moving_average = "1"
parking_lot = "0.12"
tokio = { version = "1", default-features = false, features = ["sync"] }
