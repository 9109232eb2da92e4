[package]
name = "docserve"
version = "0.1.0"
edition = "2021"
publish = false

[dependencies]
anyhow = "=1.0.104"
cargo_metadata = "=0.14.2"
crossbeam-channel = "=0.5.17"
hyper = { version = "=0.14.32", features = ["server", "http1", "tcp"] }
hyper-staticfile = "=0.9.6"
log = "=0.4.34"
notify = "=5.2.0"
qu = "=0.3.1"
qu-derive = "=0.3.0"
structopt = "=0.3.26"
tokio = { version = "=1.54.1", features = ["rt", "net"] }
