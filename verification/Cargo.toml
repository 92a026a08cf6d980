[package]
name = "protun"
version = "0.1.0"
edition = "2021"
publish = false

[dependencies]
log = "0.4"
mio = { version = "1", features = ["net", "os-poll"] }
winresource = "0.1"
