[package]
name = "nvnmos_gst"
version = "0.1.0"
edition = "2021"
publish = false

[dependencies]
anyhow = "=1.0.104"
cdp-types = "=0.3.0"
cea708-types = "=0.4.1"
hyper-util = { version = "=0.1.21", features = ["tokio"] }
nix = { version = "=0.31.3", features = ["net", "socket"] }
regex = "=1.13.1"
serde = { version = "=1.0.229", features = ["derive"] }
serde_json = { version = "=1.0.154", features = ["float_roundtrip"] }
tempfile = "=3.27.0"
thiserror = "=2.0.21"
tokio = { version = "=1.54.1", features = ["rt-multi-thread", "net", "sync", "macros", "time"] }
tonic = "=0.14.9"
tower = { version = "=0.5.3", features = ["util"] }
url = "=2.5.8"
