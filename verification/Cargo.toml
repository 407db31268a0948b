[package]
name = "presenter_remote"
version = "0.1.0"
edition = "2021"
publish = false

[dependencies]
uuid = "1"
bluer = { version = "*", features = ["bluetoothd"] }
tokio = { version = "1", features = ["rt-multi-thread", "macros", "io-std", "io-util", "time"] }
futures = "0.3"
log = "0.4"
env_logger = "*"
enigo = "*"
