[package]
name = "game_handler"
version = "0.1.0"
edition = "2021"
publish = false

[dependencies]
directories = "=6.0.0"
futures = "=0.3.34"
log = "=0.4.34"
noop-waker = "=0.1.0"
rand = "0.8"
tokio = { version = "=1.54.1", features = ["io-util", "macros", "process", "rt", "rt-multi-thread", "sync", "time"] }
tokio-stream = { version = "=0.1.19", features = ["io-util"] }
tokio-util = { version = "=0.7.20", features = ["io"] }
toml = "=0.8.23"
