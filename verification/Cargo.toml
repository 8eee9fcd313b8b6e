[package]
name = "conc_map_bench"
version = "0.1.0"
edition = "2021"
publish = false

[dependencies]
bustle = "=0.5.1"
dashmap = "=6.2.1"
flurry = "=0.5.2"
seize = "=0.3.3"
scc = "=2.4.0"
parking_lot = "=0.12.5"
tokio = { version = "=1.54.1", features = ["rt", "rt-multi-thread"] }
structopt = "=0.3.26"
tracing-subscriber = "0.3"
