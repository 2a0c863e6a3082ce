[package]
name = "kproxy"
version = "0.1.0"
edition = "2021"
publish = false

[dependencies]
cliparser = "*"
mio = { version = "0.8", features = ["os-poll", "net", "os-ext"] }
tokio = { version = "1", features = ["net", "rt", "io-util"] }
h2 = "0.4"
hyper = "1"
lazy_static = "1"
