[package]
name = "udp_echo"
version = "0.1.0"
edition = "2021"
publish = false

[dependencies]
clap = { version = "*", features = ["env"] }
mio = { version = "*", features = ["net", "os-poll"] }
tracing = "*"
tracing-subscriber = "*"
