[package]
name = "rosie"
version = "0.1.0"
edition = "2021"
publish = false

[dependencies]
clap = { version = "4", features = ["derive"] }
env_logger = "0.10"
futures = "0.3"
log = "0.4"
rlua = "0.19"
snafu = "0.7"
tokio = { version = "1", features = ["fs", "macros", "rt-multi-thread", "time"] }
tokio-stream = { version = "0.1", features = ["fs"] }
toml = "0.8"
wav = "1"
whisper-rs-sys = "*"
