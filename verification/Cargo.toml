[package]
name = "slf4j_bridge"
version = "0.1.0"
edition = "2021"
publish = false

[dependencies]
jni = "=0.21.1"
jni-sys = "=0.4.1"
log = { version = "=0.4.34", features = ["std"] }
log-panics = { version = "=2.1.0", features = ["with-backtrace"] }
cfg-if = "=1.0.5"
