[package]
name = "eden_server"
version = "0.2.0"
edition = "2021"
publish = false

[dependencies]
bodyparser = "0.8"
clap = "2"
cratedb = "*"
hex = "0.4"
iron = "0.6"
jsonwebtoken = { version = "9", default-features = false }
log = "0.4"
log4rs = "1"
rumqtt = "*"
serde = { version = "1", features = ["derive"] }
serde_json = "1"
toml = "0.5"
