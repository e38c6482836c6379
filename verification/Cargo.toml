[package]
name = "rserve"
version = "0.1.0"
edition = "2021"
publish = false

[dependencies]
mime_guess = "=2.0.5"
hyper = { version = "=1.12.0", features = ["server", "http1"] }
hyper-util = { version = "=0.1.21", features = ["tokio"] }
http-body-util = "=0.1.5"
tokio = { version = "=1.54.1", features = ["rt-multi-thread", "macros", "net", "fs", "io-util"] }
clap = { version = "=4.6.7", features = ["derive"] }
confy = "=0.6.1"
serde = { version = "=1.0.229", features = ["derive"] }
env_logger = "=0.11.11"
log = "=0.4.34"
