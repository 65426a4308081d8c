[package]
name = "crab_net"
version = "0.1.0"
edition = "2021"
publish = false

[dependencies]
byte-unit = "5"
clap = "4"
derive-new = "*"
fastrand = "2"
kanal = "*"
log = "0.4"
mimalloc = "*"
openssl = "0.10"
simple_logger = "*"
tokio = { version = "1", features = ["full"] }
tokio-dtls-stream-sink = "*"
tokio-native-tls = "*"
