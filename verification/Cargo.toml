[package]
name = "ivy"
version = "0.1.0"
edition = "2021"
publish = false

[dependencies]
bbqueue = "=0.7.0"
embassy-embedded-hal = "=0.6.0"
embassy-futures = "=0.1.2"
embassy-net = { version = "=0.9.1", features = ["tcp", "medium-ethernet", "proto-ipv4", "dhcpv4"] }
embassy-sync = "=0.8.0"
embassy-time = { version = "=0.5.1", features = ["std"] }
embedded-storage = "=0.3.2"
embedded-tls = "=0.19.0"
heapless = { version = "=0.9.3", features = ["serde"] }
heck = "=0.5.0"
mqttrust = { version = "=1.0.0", features = ["embedded-tls"] }
postcard = "=1.1.3"
proc-macro2 = "=1.0.107"
quote = "=1.0.47"
sequential-storage = "=7.2.0"
serde = { version = "1", features = ["derive"] }
serde-json-core = "=0.7.0"
static_cell = "=2.1.1"
syn = { version = "=2.0.119", features = ["full"] }
thiserror = "=2.0.21"
tracing = "=0.1.44"
trouble-host = "=0.5.1"
