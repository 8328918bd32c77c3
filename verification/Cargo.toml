[package]
name = "anevicon"
version = "0.1.0"
edition = "2021"
publish = false

[dependencies]
rand = "=0.9.5"
structopt = "=0.3.26"
humantime = "=2.4.0"
log = "=0.4.34"
colored = "=2.2.0"
fern = { version = "=0.7.1", features = ["colored"] }
time = { version = "=0.3.55", features = ["formatting"] }
