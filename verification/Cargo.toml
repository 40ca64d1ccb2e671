[package]
name = "athenacli"
version = "0.1.0"
edition = "2021"
publish = false

[dependencies]
ascii_table = "3.0"
byte-unit = "4.0"
http = "0.2"
humantime = "2"
hyper = "0.13"
hyper-proxy = "0.8"
rusoto_athena = "0.45"
rusoto_core = "0.45"
rusoto_signature = "0.45"
sqlparser = "0.6"
structopt = "0.3"
tokio = { version = "0.2", features = ["macros", "rt-threaded", "time"] }
tracing = "0.1"
tracing-subscriber = "0.2"
uuid = { version = "0.8", features = ["v4"] }
