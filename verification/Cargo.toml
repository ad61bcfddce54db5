[package]
name = "trojan"
version = "0.1.0"
edition = "2021"
publish = false

[dependencies]
bytes = "1"
crossbeam = "0.8"
log = "0.4"
mio = { version = "0.8", features = ["os-poll", "net"] }
rustls = "0.20"
rustls-pki-types = "1"
smoltcp = "0.8"
tokio = { version = "1", features = ["net", "rt", "io-util", "sync", "time"] }
tokio-rustls = "0.25"
webpki-roots = "0.22"
wintun = "0.2"
