[package]
name = "op_runtime"
version = "0.1.0"
edition = "2021"
publish = false

[dependencies]
regex = "=1.13.1"
serde = { version = "=1.0.229", features = ["derive"] }
serde_json = "=1.0.154"
tokio = { version = "=1.54.1", features = ["net", "process", "signal", "rt", "io-util", "time"] }
futures = "=0.3.34"
rand = "0.8"
ring = "=0.17.14"
rsa = "=0.9.10"
sha1 = "0.10"
sha2 = "0.10"
rusqlite = { version = "=0.41.0", features = ["bundled"] }
tempfile = "=3.27.0"
libloading = "=0.9.0"
dlopen = "=0.1.8"
libc = "=0.2.191"
zeromq = "=0.6.0"
wgpu-types = "=30.0.1"
