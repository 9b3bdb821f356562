[package]
name = "mapreduce"
version = "0.1.0"
edition = "2021"
publish = false

[dependencies]
crossbeam = "0.8"
dashmap = "6"
prost-types = "*"
dotenv = "0.15"
tokio = { version = "1", features = ["macros", "rt-multi-thread", "time", "signal"] }
tonic = { version = "*", default-features = false }
