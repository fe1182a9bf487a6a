[package]
name = "bss"
version = "0.1.0"
edition = "2021"
publish = false

[dependencies]
futures = "0.3"
futures-util = "0.3"
http-body-util = "0.1"
hyper = { version = "1", features = ["client", "http1", "server"] }
hyper-util = { version = "0.1", features = ["tokio"] }
lexopt = "0.3"
libc = "0.2"
pretty_env_logger = "0.5"
serde = { version = "1", features = ["derive"] }
socket2 = { version = "0.5", features = ["all"] }
tokio = { version = "1", features = ["full"] }
tokio-stream = { version = "0.1", features = ["net"] }
tokio-util = { version = "0.7", features = ["io"] }
toml = "0.8"
warp = "0.3"
