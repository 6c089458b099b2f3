[package]
name = "luneweb"
version = "0.1.0"
edition = "2021"
publish = false

[dependencies]
path-clean = "=1.0.1"
http = "=1.5.0"
serde = { version = "=1.0.229", features = ["derive"] }
serde_json = "=1.0.154"
toml = "=0.8.23"
clap = { version = "=4.6.7", features = ["derive"] }
flume = "=0.11.1"
smol = "=2.0.2"
async-broadcast = "=0.7.2"
event-listener = "=5.4.2"
once_cell = "=1.21.4"
tokio = { version = "=1.54.1", features = ["sync", "time", "process", "fs", "rt"] }
bstr = "=1.13.1"
include_dir = "=0.7.4"
mlua = { version = "=0.10.5", features = ["luau", "async", "serialize"] }
tao = "0.30"
wry = "0.47"
