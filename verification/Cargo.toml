[package]
name = "threadpool"
version = "0.1.0"
edition = "2021"
publish = false

[dependencies]
crossbeam = "0.8"
tokio = { version = "1", default-features = false, features = ["sync", "macros", "rt", "rt-multi-thread"] }

[dev-dependencies]
itertools = "0.13"
