[package]
name = "klyhostservice"
version = "0.1.0"
edition = "2021"
publish = false

[dependencies]
tokio = { version = "1", features = ["sync", "rt", "rt-multi-thread", "macros", "net", "time"] }
tokio-util = { version = "0.7", features = ["codec"] }
futures = "0.3"
async-std = "1"
curl = "0.4"
lazy_static = "1"
libc = "0.2"
libvirt-sys = "*"
log = "0.4"
log4rs = "1"
paho-mqtt = "*"
serde = { version = "1", features = ["derive"] }
serde_yaml = "0.9"
virt = "*"
