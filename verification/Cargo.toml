[package]
name = "tk_pie"
version = "0.1.0"
edition = "2021"
publish = false

[dependencies]
crc-any = "=2.5.1"
heapless = "=0.8.0"
msgpck = { version = "=0.2.8", features = ["alloc"] }
serde = { version = "=1.0.229", features = ["derive"] }
postcard = { version = "=1.1.3", features = ["alloc"] }
ron = "=0.8.1"
bytemuck = { version = "=1.25.2", features = ["derive"] }
rend = "=0.5.4"
tokio = { version = "=1.54.1", features = ["rt-multi-thread", "process", "fs", "io-util", "time", "sync", "macros"] }
eyre = "=0.6.14"
log = "=0.4.35"
embassy-sync = "=0.8.0"
embassy-time = { version = "=0.5.1", features = ["std"] }
embassy-futures = "=0.1.2"
futures = { version = "=0.3.34", default-features = false, features = ["async-await"] }
atomic-polyfill = "=1.0.3"
portable-atomic = "=1.15.0"
libm = "=0.2.16"
glam = "=0.34.2"
embedded-io-async = "=0.7.0"
