[package]
name = "proxy_codecs"
version = "0.1.0"
edition = "2021"
publish = false

[dependencies]
base64 = "0.22"
bytes = "1"
http = "1"
httparse = "1"
memchr = "2"
thiserror = "1"
async-trait = "0.1"
tokio = { version = "1", features = ["net", "io-util", "rt", "time"] }
